//! Adapters that complete a transport which has only one of the two write
//! capabilities.
//!
//! Whichever way round a transport is adapted, the same bytes reach the wire
//! in the same order.
use crate::driver::{send_u8, Operation, Polled, TrivialWaker, WriteU8Done};
use crate::spi::{
    be_bytes, high_byte, lemma_all_then_sent, lemma_be_bytes_push, lemma_one_is_batch_of_one,
    lemma_sent_nothing, lemma_sent_then_all, low_byte, Bus, DcxPin, Poll, Read, ReadBits,
    ReadModeSetter, Wired, WriteBatch, WriteU8, WriteU8s,
};
use vstd::prelude::*;
use vstd::slice::slice_subrange;

verus! {

/// A helper to add [`WriteU8s`] and [`WriteBatch`] support when [`WriteU8`]
/// is implemented.
///
/// Not very efficient: it starts the next byte only when the previous one is
/// out, because it cannot assume that the hardware has a buffer for more.
pub struct AdapterU8<W> {
    w: W,
    taken: Ghost<Seq<Seq<u8>>>,
}

impl<W> AdapterU8<W> {
    /// The transport inside.
    pub closed spec fn inner(&self) -> W {
        self.w
    }

    /// The batches that the adapter has taken and written byte by byte,
    /// oldest first.
    pub closed spec fn taken(&self) -> Seq<Seq<u8>> {
        self.taken@
    }

    /// Wraps a transport. The adapter has taken no batch yet.
    pub fn new(w: W) -> (a: Self)
        ensures
            a.inner() == w,
            a.taken() == Seq::<Seq<u8>>::empty(),
    {
        Self { w, taken: Ghost(Seq::empty()) }
    }

    /// Looks at the transport inside.
    pub fn get_ref(&self) -> (w: &W)
        ensures
            *w == self.inner(),
    {
        &self.w
    }

    /// Takes the adapter off again.
    pub fn into_inner(self) -> (w: W)
        ensures
            w == self.inner(),
    {
        self.w
    }
}

impl<W: Wired> Wired for AdapterU8<W> {
    open spec fn inv(&self) -> bool {
        self.inner().inv()
    }

    open spec fn bus(&self) -> Bus {
        self.inner().bus()
    }

    open spec fn patience(&self) -> nat {
        self.inner().patience()
    }

    open spec fn latency(&self) -> nat {
        self.inner().latency()
    }
}

impl<W: DcxPin> DcxPin for AdapterU8<W> {
    fn set_dcx_command_mode(&mut self) {
        self.w.set_dcx_command_mode();
    }

    fn set_dcx_data_mode(&mut self) {
        self.w.set_dcx_data_mode();
    }
}

impl<W: ReadModeSetter> ReadModeSetter for AdapterU8<W> {
    fn start_reading(&mut self) {
        self.w.start_reading();
    }

    fn finish_reading(&mut self) {
        self.w.finish_reading();
    }
}

impl<W: Read> Read for AdapterU8<W> {
    fn read(&mut self, num_bits: usize) -> (r: u32) {
        self.w.read(num_bits)
    }
}

impl<W: ReadBits> ReadBits for AdapterU8<W> {
    fn read_bit(&mut self) -> (bit: bool) {
        self.w.read_bit()
    }

    fn read_bits(&mut self, num_bits: usize) -> (r: u32) {
        self.w.read_bits(num_bits)
    }
}

impl<W: WriteU8> WriteU8 for AdapterU8<W> {
    fn write_u8(&mut self, data: u8) {
        self.w.write_u8(data);
    }

    fn poll_write_u8(&mut self) -> (r: Poll<()>) {
        self.w.poll_write_u8()
    }
}

impl<W: WriteU8> WriteU8s for AdapterU8<W> {
    open spec fn batches(&self) -> Seq<Seq<u8>> {
        self.taken()
    }

    fn write_u8s(&mut self, data: &[u8]) {
        let mut op = RepeatU8::new(data);
        let mut driver = TrivialWaker::new();
        driver.block_on(&mut op, &mut self.w);
        self.taken = Ghost(self.taken@.push(data@));
    }
}

impl<W: WriteU8> WriteBatch for AdapterU8<W> {
    fn write_u8_iter(&mut self, items: &[u8]) {
        let ghost start = self.bus();
        let mut i: usize = 0;
        proof {
            lemma_sent_nothing(start);
        }
        while i < items.len()
            invariant
                i <= items.len(),
                self.inv(),
                start.writable(),
                self.bus() == start.sent_all(items@.take(i as int)),
            decreases items.len() - i,
        {
            let element = items[i];
            proof {
                lemma_all_then_sent(start, items@.take(i as int), element);
            }
            send_u8(self, element);
            i += 1;
        }
    }

    fn write_u16_iter(&mut self, items: &[u16]) {
        let ghost start = self.bus();
        let mut i: usize = 0;
        proof {
            lemma_sent_nothing(start);
        }
        while i < items.len()
            invariant
                i <= items.len(),
                self.inv(),
                start.writable(),
                self.bus() == start.sent_all(be_bytes(items@.take(i as int))),
            decreases items.len() - i,
        {
            let element = items[i];
            let (high, low) = split_u16(element);
            proof {
                let done = be_bytes(items@.take(i as int));
                lemma_all_then_sent(start, done, high);
                lemma_all_then_sent(start, done.push(high), low);
                lemma_be_bytes_push(items@.take(i as int), element);
            }
            // Big endian.
            send_u8(self, high);
            send_u8(self, low);
            i += 1;
        }
    }
}

/// Splits a 16-bit parameter into the two bytes that go on the wire, the most
/// significant first.
pub fn split_u16(v: u16) -> (pair: (u8, u8))
    ensures
        pair.0 == v >> 8,
        pair.1 == v & 0xFF,
        pair.0 == high_byte(v),
        pair.1 == low_byte(v),
{
    assert((v >> 8) < 0x100) by (bit_vector);
    assert((v & 0xFF) < 0x100) by (bit_vector);
    ((v >> 8) as u8, (v & 0xFF) as u8)
}

/// The two bytes of a 16-bit parameter, put together again most significant
/// first, give the parameter back.
pub proof fn lemma_split_u16_round_trip(v: u16)
    ensures
        ((high_byte(v) as u16) << 8) | (low_byte(v) as u16) == v,
{
    assert(((((v >> 8) as u8) as u16) << 8) | (((v & 0xFF) as u8) as u16) == v) by (bit_vector);
}

/// The operation that writes a run of bytes one by one, each started only
/// when the one before is out.
pub struct RepeatU8<'a> {
    data: &'a [u8],
    current_write: Option<WriteU8Done>,
}

impl<'a> RepeatU8<'a> {
    /// The bytes that have not been started yet.
    pub closed spec fn remaining(&self) -> Seq<u8> {
        self.data@
    }

    /// Whether a byte has been started and not yet seen complete.
    pub closed spec fn writing(&self) -> bool {
        self.current_write is Some
    }

    /// The handle of the byte in flight has not seen it complete.
    pub closed spec fn wf(&self) -> bool {
        self.current_write matches Some(h) ==> !h.complete()
    }

    /// The bus once the byte in flight and all the bytes not started yet are
    /// out.
    pub open spec fn plan(&self, bus: Bus) -> Bus {
        bus.settled().sent_all(self.remaining())
    }

    /// Whether a poll finds the byte that this operation has in flight still
    /// busy.
    pub open spec fn waits(&self, bus: Bus, patience: nat) -> bool {
        self.writing() && bus.busy(patience)
    }

    /// The bytes that are not started yet after one poll: all of them while
    /// the byte in flight is busy; none on hardware that is never busy; else
    /// all but the first, which the poll starts.
    pub open spec fn left(&self, bus: Bus, patience: nat, latency: nat) -> Seq<u8> {
        if self.waits(bus, patience) || self.remaining().len() == 0 {
            self.remaining()
        } else if latency == 0 {
            Seq::empty()
        } else {
            self.remaining().skip(1)
        }
    }

    /// The operation that will write `data`. Nothing is started yet.
    pub fn new(data: &'a [u8]) -> (op: Self)
        ensures
            op.remaining() == data@,
            !op.writing(),
            op.wf(),
    {
        RepeatU8 { data, current_write: None }
    }
}

impl<'a, W: WriteU8> Operation<W> for RepeatU8<'a> {
    open spec fn inv(&self, bus: Bus) -> bool {
        &&& self.wf()
        &&& !bus.reading
        &&& self.writing() || bus.idle()
    }

    open spec fn goal(&self, bus: Bus) -> Bus {
        self.plan(bus)
    }

    open spec fn stages(&self) -> nat {
        self.remaining().len()
    }

    open spec fn outcome(&self, bus: Bus, patience: nat, latency: nat) -> Polled {
        if self.waits(bus, patience) {
            // The byte in flight is not out: nothing is started.
            Polled { ready: false, bus, patience: (patience - 1) as nat }
        } else if self.remaining().len() == 0 {
            Polled { ready: true, bus: bus.settled(), patience }
        } else if latency == 0 {
            // Hardware that is never busy takes the whole rest at once.
            Polled { ready: true, bus: bus.settled().sent_all(self.remaining()), patience: 0 }
        } else {
            // The next byte is started and found busy.
            Polled {
                ready: false,
                bus: bus.settled().started(self.remaining()[0]),
                patience: (latency - 1) as nat,
            }
        }
    }

    fn poll(&mut self, b: &mut W) -> (r: Poll<()>)
        ensures
            final(self).writing() == (r is Pending),
            final(self).remaining() == old(self).left(
                old(b).bus(),
                old(b).patience(),
                old(b).latency(),
            ),
    {
        let ghost first_bus = b.bus();
        let ghost first_patience = b.patience();
        let ghost latency = b.latency();
        let ghost all = self.remaining();
        let ghost waits = self.waits(first_bus, first_patience);
        let ghost mut out: int = 0;
        let ghost mut entered = false;
        proof {
            lemma_sent_nothing(first_bus.settled());
        }
        loop
            invariant
                b.inv(),
                self.wf(),
                !b.bus().reading,
                self.writing() || b.bus().idle(),
                b.latency() == latency,
                latency == old(b).latency(),
                first_bus == old(b).bus(),
                first_patience == old(b).patience(),
                all == old(self).remaining(),
                waits == old(self).waits(first_bus, first_patience),
                !entered ==> {
                    &&& out == 0
                    &&& self.writing() == old(self).writing()
                    &&& self.remaining() == all
                    &&& b.bus() == first_bus
                    &&& b.patience() == first_patience
                },
                entered ==> {
                    &&& !waits
                    &&& !self.writing()
                    &&& 0 <= out <= all.len()
                    &&& self.remaining() == all.skip(out)
                    &&& b.bus() == first_bus.settled().sent_all(all.take(out))
                    &&& (out == 0 ==> b.patience() == first_patience)
                    &&& (out > 0 ==> latency == 0 && b.patience() == 0)
                },
            decreases
                    self.data.len(),
                    if self.current_write is Some {
                        1nat
                    } else {
                        0nat
                    },
        {
            if self.current_write.is_none() {
                if self.data.len() > 0 {
                    let first = self.data[0];
                    proof {
                        lemma_sent_then_all(b.bus(), first, self.data@.subrange(1, self.data@.len() as int));
                        lemma_all_then_sent(first_bus.settled(), all.take(out), first);
                    }
                    b.write_u8(first);
                    self.current_write = Some(WriteU8Done::new());
                    self.data = slice_subrange(self.data, 1, self.data.len());
                    proof {
                        out = out + 1;
                    }
                } else {
                    proof {
                        lemma_sent_nothing(b.bus());
                    }
                    return Poll::Ready(());
                }
            }
            let mut done = true;
            if let Some(h) = &mut self.current_write {
                done = h.is_done(b);
            }
            if !done {
                return Poll::Pending;
            }
            self.current_write = None;
            proof {
                // A byte is out: the one that was in flight, or one that
                // went out at once.
                entered = true;
            }
        }
    }
}

/// A helper to add [`WriteU8`] support when [`WriteU8s`] is implemented.
///
/// A single byte is written as a batch of one. A batch write returns only
/// when its last byte is out, so the adapter counts on an idle bus between
/// calls: that is part of its invariant.
pub struct AdapterU8s<W> {
    w: W,
}

impl<W> AdapterU8s<W> {
    /// The transport inside.
    pub closed spec fn inner(&self) -> W {
        self.w
    }

    /// Wraps a transport.
    pub fn new(w: W) -> (a: Self)
        ensures
            a.inner() == w,
    {
        Self { w }
    }

    /// Looks at the transport inside.
    pub fn get_ref(&self) -> (w: &W)
        ensures
            *w == self.inner(),
    {
        &self.w
    }

    /// Takes the adapter off again.
    pub fn into_inner(self) -> (w: W)
        ensures
            w == self.inner(),
    {
        self.w
    }
}

impl<W: Wired> Wired for AdapterU8s<W> {
    open spec fn inv(&self) -> bool {
        self.inner().inv() && self.inner().bus().idle()
    }

    open spec fn bus(&self) -> Bus {
        self.inner().bus()
    }

    /// A byte is out when its write returns: the adapter is never busy.
    open spec fn patience(&self) -> nat {
        0
    }

    open spec fn latency(&self) -> nat {
        0
    }
}

impl<W: DcxPin> DcxPin for AdapterU8s<W> {
    fn set_dcx_command_mode(&mut self) {
        self.w.set_dcx_command_mode();
    }

    fn set_dcx_data_mode(&mut self) {
        self.w.set_dcx_data_mode();
    }
}

impl<W: ReadModeSetter> ReadModeSetter for AdapterU8s<W> {
    fn start_reading(&mut self) {
        self.w.start_reading();
    }

    fn finish_reading(&mut self) {
        self.w.finish_reading();
    }
}

impl<W: Read> Read for AdapterU8s<W> {
    fn read(&mut self, num_bits: usize) -> (r: u32) {
        self.w.read(num_bits)
    }
}

impl<W: ReadBits> ReadBits for AdapterU8s<W> {
    fn read_bit(&mut self) -> (bit: bool) {
        self.w.read_bit()
    }

    fn read_bits(&mut self, num_bits: usize) -> (r: u32) {
        self.w.read_bits(num_bits)
    }
}

impl<W: WriteU8s> WriteU8s for AdapterU8s<W> {
    open spec fn batches(&self) -> Seq<Seq<u8>> {
        self.inner().batches()
    }

    fn write_u8s(&mut self, data: &[u8]) {
        self.w.write_u8s(data);
    }
}

impl<W: WriteU8s> WriteU8 for AdapterU8s<W> {
    fn write_u8(&mut self, data: u8)
        ensures
            final(self).bus() == old(self).bus().sent(data),
            final(self).batches() == old(self).batches().push(seq![data]),
    {
        let one = [data];
        proof {
            lemma_one_is_batch_of_one(self.w.bus(), data);
            assert(one@ =~= seq![data]);
        }
        self.w.write_u8s(one.as_slice());
    }

    fn poll_write_u8(&mut self) -> (r: Poll<()>)
        ensures
            r is Ready,
            final(self).inner() == old(self).inner(),
    {
        Poll::Ready(())
    }
}

} // verus!
