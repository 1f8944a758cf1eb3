//! A transport without hardware: it keeps a record of what was done to it and
//! plays back the bits that a test wants the panel to present.
//!
//! The record is the whole history of the bus: the wire and the sampled bits
//! are read off it.
use crate::spi::{
    frame, frames, msb_first, Bus, DcU8, DcxPin, Poll, Read, ReadBits, ReadModeSetter, Wired,
    WriteU8, WriteU8s,
};
use vstd::prelude::*;

verus! {

/// One thing that was done to the device.
#[derive(Clone, Copy, Debug, PartialEq, Eq, Structural)]
pub enum IoCall {
    /// A byte went out with `DCX` low.
    WriteCommand(u8),
    /// A byte went out with `DCX` high.
    WriteData(u8),
    /// The bus was turned round for reading.
    StartReading,
    /// One bit was sampled, at this level.
    ReadBit(bool),
    /// The bus was turned back for writing.
    FinishReading,
}

/// The frames among a record of calls, in order.
pub open spec fn wire_of(calls: Seq<IoCall>) -> Seq<DcU8>
    decreases calls.len(),
{
    if calls.len() == 0 {
        Seq::empty()
    } else {
        let before = wire_of(calls.drop_last());
        match calls.last() {
            IoCall::WriteCommand(b) => before.push(DcU8::Command(b)),
            IoCall::WriteData(b) => before.push(DcU8::Data(b)),
            _ => before,
        }
    }
}

/// The sampled bits among a record of calls, in order.
pub open spec fn bits_of(calls: Seq<IoCall>) -> Seq<bool>
    decreases calls.len(),
{
    if calls.len() == 0 {
        Seq::empty()
    } else {
        let before = bits_of(calls.drop_last());
        match calls.last() {
            IoCall::ReadBit(bit) => before.push(bit),
            _ => before,
        }
    }
}

/// The number of times that a record of calls turns the bus round for
/// reading.
pub open spec fn turns_of(calls: Seq<IoCall>) -> nat
    decreases calls.len(),
{
    if calls.len() == 0 {
        0
    } else {
        turns_of(calls.drop_last()) + if calls.last() is StartReading {
            1nat
        } else {
            0nat
        }
    }
}

/// The call that records a frame.
pub open spec fn call_of(f: DcU8) -> IoCall {
    match f {
        DcU8::Command(b) => IoCall::WriteCommand(b),
        DcU8::Data(b) => IoCall::WriteData(b),
    }
}

/// The calls that record a run of bytes at a given level of `DCX`.
pub open spec fn write_calls(data_mode: bool, bytes: Seq<u8>) -> Seq<IoCall> {
    Seq::new(bytes.len(), |i: int| call_of(frame(data_mode, bytes[i])))
}

/// The calls that record a run of sampled bits.
pub open spec fn read_calls(bits: Seq<bool>) -> Seq<IoCall> {
    Seq::new(bits.len(), |i: int| IoCall::ReadBit(bits[i]))
}

/// The first `n` levels that a panel presents which has `input` left: the
/// input as far as it goes, then low levels.
pub open spec fn played(input: Seq<bool>, n: nat) -> Seq<bool> {
    Seq::new(
        n,
        |i: int|
            if i < input.len() {
                input[i]
            } else {
                false
            },
    )
}

/// The input that is left after `n` levels have been presented.
pub open spec fn left_after(input: Seq<bool>, n: nat) -> Seq<bool> {
    if n <= input.len() {
        input.skip(n as int)
    } else {
        Seq::empty()
    }
}

/// What one more call adds to the wire and to the sampled bits.
pub proof fn lemma_record_push(calls: Seq<IoCall>, call: IoCall)
    ensures
        wire_of(calls.push(call)) == (match call {
            IoCall::WriteCommand(b) => wire_of(calls).push(DcU8::Command(b)),
            IoCall::WriteData(b) => wire_of(calls).push(DcU8::Data(b)),
            _ => wire_of(calls),
        }),
        bits_of(calls.push(call)) == (match call {
            IoCall::ReadBit(bit) => bits_of(calls).push(bit),
            _ => bits_of(calls),
        }),
        turns_of(calls.push(call)) == turns_of(calls) + if call is StartReading {
            1nat
        } else {
            0nat
        },
{
    assert(calls.push(call).drop_last() =~= calls);
}

/// A run of read cycles on record adds its bits to the sampled bits and
/// nothing to the wire.
pub proof fn lemma_record_reads(calls: Seq<IoCall>, bits: Seq<bool>)
    ensures
        bits_of(calls + read_calls(bits)) == bits_of(calls) + bits,
        wire_of(calls + read_calls(bits)) == wire_of(calls),
        turns_of(calls + read_calls(bits)) == turns_of(calls),
    decreases bits.len(),
{
    if bits.len() > 0 {
        let front = bits.drop_last();
        lemma_record_reads(calls, front);
        lemma_record_push(calls + read_calls(front), IoCall::ReadBit(bits.last()));
        assert((calls + read_calls(front)).push(IoCall::ReadBit(bits.last())) =~= calls
            + read_calls(bits));
    }
}

/// Everything there is to know about a [`FakeDevice`].
#[verifier::ext_equal]
pub struct DeviceState {
    /// The calls so far, oldest first. A byte is on record when it is out.
    pub record: Seq<IoCall>,
    /// The level of `DCX`.
    pub data_mode: bool,
    /// Whether the bus is turned round for reading.
    pub reading: bool,
    /// The byte that is being shifted out.
    pub in_flight: Option<DcU8>,
    /// The number of polls that will still find the device busy.
    pub busy_polls: nat,
    /// The number of polls that every byte keeps the device busy.
    pub delay: nat,
    /// The batches that the device has taken, oldest first, each with its
    /// bytes.
    pub batches: Seq<Seq<u8>>,
    /// The levels that the panel will still present, next one first. When
    /// they are used up the panel presents low levels.
    pub input: Seq<bool>,
}

impl DeviceState {
    /// The bus of a device in this state.
    pub open spec fn bus(self) -> Bus {
        Bus {
            data_mode: self.data_mode,
            reading: self.reading,
            wire: wire_of(self.record),
            in_flight: self.in_flight,
            sampled: bits_of(self.record),
            turns: turns_of(self.record),
        }
    }

    /// The state after one poll of the byte in flight.
    pub open spec fn polled(self) -> DeviceState {
        match self.in_flight {
            None => self,
            Some(f) => if self.busy_polls > 0 {
                DeviceState { busy_polls: (self.busy_polls - 1) as nat, ..self }
            } else {
                DeviceState { record: self.record.push(call_of(f)), in_flight: None, ..self }
            },
        }
    }

    /// Whether one poll of the byte in flight finds the device done.
    pub open spec fn poll_is_ready(self) -> bool {
        self.in_flight is None || self.busy_polls == 0
    }

    /// The state after `n` read cycles.
    pub open spec fn sampled(self, n: nat) -> DeviceState {
        DeviceState {
            record: self.record + read_calls(played(self.input, n)),
            input: left_after(self.input, n),
            ..self
        }
    }

    /// One read cycle after `n` is `n + 1` read cycles, and the bit that it
    /// samples is the last of the `n + 1`.
    pub proof fn lemma_sampled_step(self, n: nat)
        ensures
            self.sampled(n).sampled(1) == self.sampled(n + 1),
            played(self.sampled(n).input, 1)[0] == played(self.input, n + 1).last(),
            played(self.input, n + 1).drop_last() == played(self.input, n),
    {
    }
}

/// A device that records what is done to it.
pub struct FakeDevice {
    calls: Vec<IoCall>,
    is_data_mode: bool,
    reading: bool,
    in_flight: Option<DcU8>,
    lag: usize,
    latency: usize,
    batch_log: Vec<Vec<u8>>,
    input: Vec<bool>,
    next: usize,
}

impl View for FakeDevice {
    type V = DeviceState;

    closed spec fn view(&self) -> DeviceState {
        DeviceState {
            record: self.calls@,
            data_mode: self.is_data_mode,
            reading: self.reading,
            in_flight: self.in_flight,
            busy_polls: self.lag as nat,
            delay: self.latency as nat,
            batches: Seq::new(self.batch_log@.len(), |i: int| self.batch_log@[i]@),
            input: if self.next <= self.input@.len() {
                self.input@.skip(self.next as int)
            } else {
                Seq::empty()
            },
        }
    }
}

impl FakeDevice {
    /// The device's own books are in order.
    pub closed spec fn well_formed(&self) -> bool {
        self.next <= self.input.len()
    }

    /// A device in command mode, idle, with nothing on record, which answers
    /// the first poll after each byte and presents no bits.
    pub fn new() -> (d: Self)
        ensures
            d.inv(),
            d@ == (DeviceState {
                record: Seq::empty(),
                data_mode: false,
                reading: false,
                in_flight: None,
                busy_polls: 0,
                delay: 0,
                batches: Seq::empty(),
                input: Seq::empty(),
            }),
    {
        let d = FakeDevice {
            calls: Vec::new(),
            is_data_mode: false,
            reading: false,
            in_flight: None,
            lag: 0,
            latency: 0,
            batch_log: Vec::new(),
            input: Vec::new(),
            next: 0,
        };
        d
    }

    /// The same device, but every byte from now on keeps it busy for
    /// `latency` polls.
    pub fn with_latency(self, latency: usize) -> (d: Self)
        requires
            self.inv(),
        ensures
            d.inv(),
            d@ == (DeviceState { delay: latency as nat, ..self@ }),
    {
        let mut d = self;
        d.latency = latency;
        d
    }

    /// The same device, but the panel will present `bits`, the first one
    /// first, and low levels after the last.
    pub fn with_input(self, bits: Vec<bool>) -> (d: Self)
        requires
            self.inv(),
        ensures
            d.inv(),
            d@ == (DeviceState { input: bits@, ..self@ }),
    {
        let mut d = self;
        d.input = bits;
        d.next = 0;
        d
    }

    /// Whether `DCX` is high.
    pub fn is_data_mode(&self) -> (b: bool)
        ensures
            b == self@.data_mode,
    {
        self.is_data_mode
    }

    /// Whether the bus is turned round for reading.
    pub fn is_reading(&self) -> (b: bool)
        ensures
            b == self@.reading,
    {
        self.reading
    }

    /// Whether a byte is in flight.
    pub fn is_busy(&self) -> (b: bool)
        ensures
            b == self@.in_flight is Some,
    {
        self.in_flight.is_some()
    }

    /// The number of batch writes that the device has taken.
    pub fn batches(&self) -> (n: usize)
        ensures
            n == self@.batches.len(),
    {
        self.batch_log.len()
    }

    /// The bytes of the `i`-th batch that the device has taken.
    pub fn batch(&self, i: usize) -> (bytes: &Vec<u8>)
        requires
            i < self@.batches.len(),
        ensures
            bytes@ == self@.batches[i as int],
    {
        &self.batch_log[i]
    }

    /// The record of calls so far.
    pub fn calls(&self) -> (calls: Vec<IoCall>)
        ensures
            calls@ == self@.record,
    {
        let mut out: Vec<IoCall> = Vec::new();
        let mut i: usize = 0;
        while i < self.calls.len()
            invariant
                i <= self.calls.len(),
                out@ == self.calls@.take(i as int),
            decreases self.calls.len() - i,
        {
            out.push(self.calls[i]);
            i += 1;
        }
        out
    }

    /// The bytes that have reached the wire, oldest first.
    pub fn seq(&self) -> (seq: Vec<DcU8>)
        ensures
            seq@ == self.bus().wire,
            seq@ == wire_of(self@.record),
    {
        let mut out: Vec<DcU8> = Vec::new();
        let mut i: usize = 0;
        while i < self.calls.len()
            invariant
                i <= self.calls.len(),
                out@ == wire_of(self.calls@.take(i as int)),
            decreases self.calls.len() - i,
        {
            let call = self.calls[i];
            proof {
                lemma_record_push(self.calls@.take(i as int), call);
                assert(self.calls@.take(i as int).push(call) =~= self.calls@.take(i + 1));
            }
            match call {
                IoCall::WriteCommand(b) => {
                    out.push(DcU8::Command(b));
                },
                IoCall::WriteData(b) => {
                    out.push(DcU8::Data(b));
                },
                _ => {},
            }
            i += 1;
        }
        assert(self.calls@.take(i as int) =~= self.calls@);
        out
    }
}

impl Default for FakeDevice {
    fn default() -> (d: Self)
        ensures
            d.inv(),
            d@ == (DeviceState {
                record: Seq::empty(),
                data_mode: false,
                reading: false,
                in_flight: None,
                busy_polls: 0,
                delay: 0,
                batches: Seq::empty(),
                input: Seq::empty(),
            }),
    {
        FakeDevice::new()
    }
}

impl Wired for FakeDevice {
    open spec fn inv(&self) -> bool {
        self.well_formed()
    }

    open spec fn bus(&self) -> Bus {
        self@.bus()
    }

    open spec fn patience(&self) -> nat {
        self@.busy_polls
    }

    open spec fn latency(&self) -> nat {
        self@.delay
    }
}

impl DcxPin for FakeDevice {
    fn set_dcx_command_mode(&mut self)
        ensures
            final(self)@ == (DeviceState { data_mode: false, ..old(self)@ }),
    {
        self.is_data_mode = false;
    }

    fn set_dcx_data_mode(&mut self)
        ensures
            final(self)@ == (DeviceState { data_mode: true, ..old(self)@ }),
    {
        self.is_data_mode = true;
    }
}

impl WriteU8 for FakeDevice {
    fn write_u8(&mut self, data: u8)
        ensures
            final(self)@ == (DeviceState {
                in_flight: Some(frame(old(self)@.data_mode, data)),
                busy_polls: old(self)@.delay,
                ..old(self)@
            }),
    {
        let f = if self.is_data_mode {
            DcU8::Data(data)
        } else {
            DcU8::Command(data)
        };
        self.in_flight = Some(f);
        self.lag = self.latency;
    }

    fn poll_write_u8(&mut self) -> (r: Poll<()>)
        ensures
            r is Ready <==> old(self)@.poll_is_ready(),
            final(self)@ == old(self)@.polled(),
    {
        match self.in_flight {
            None => Poll::Ready(()),
            Some(f) => {
                if self.lag > 0 {
                    self.lag = self.lag - 1;
                    Poll::Pending
                } else {
                    let call = match f {
                        DcU8::Command(b) => IoCall::WriteCommand(b),
                        DcU8::Data(b) => IoCall::WriteData(b),
                    };
                    proof {
                        lemma_record_push(self.calls@, call);
                    }
                    self.calls.push(call);
                    self.in_flight = None;
                    Poll::Ready(())
                }
            },
        }
    }
}

impl WriteU8s for FakeDevice {
    open spec fn batches(&self) -> Seq<Seq<u8>> {
        self@.batches
    }

    fn write_u8s(&mut self, data: &[u8])
        ensures
            final(self)@ == (DeviceState {
                record: old(self)@.record + write_calls(old(self)@.data_mode, data@),
                batches: old(self)@.batches.push(data@),
                ..old(self)@
            }),
    {
        self.batch_log.push(vstd::slice::slice_to_vec(data));
        let ghost start = self@;
        let mut i: usize = 0;
        while i < data.len()
            invariant
                i <= data.len(),
                self.inv(),
                self@ == (DeviceState {
                    record: start.record + write_calls(start.data_mode, data@.take(i as int)),
                    ..start
                }),
                self.bus() == start.bus().sent_all(data@.take(i as int)),
            decreases data.len() - i,
        {
            let call = if self.is_data_mode {
                IoCall::WriteData(data[i])
            } else {
                IoCall::WriteCommand(data[i])
            };
            proof {
                lemma_record_push(self.calls@, call);
            }
            self.calls.push(call);
            i += 1;
        }
    }
}

impl ReadModeSetter for FakeDevice {
    fn start_reading(&mut self)
        ensures
            final(self)@ == (DeviceState {
                record: old(self)@.record.push(IoCall::StartReading),
                reading: true,
                ..old(self)@
            }),
    {
        proof {
            lemma_record_push(self.calls@, IoCall::StartReading);
        }
        self.calls.push(IoCall::StartReading);
        self.reading = true;
    }

    fn finish_reading(&mut self)
        ensures
            final(self)@ == (DeviceState {
                record: old(self)@.record.push(IoCall::FinishReading),
                reading: false,
                ..old(self)@
            }),
    {
        proof {
            lemma_record_push(self.calls@, IoCall::FinishReading);
        }
        self.calls.push(IoCall::FinishReading);
        self.reading = false;
    }
}

impl ReadBits for FakeDevice {
    fn read_bit(&mut self) -> (bit: bool)
        ensures
            bit == played(old(self)@.input, 1)[0],
            final(self)@ == old(self)@.sampled(1),
    {
        let bit = if self.next < self.input.len() {
            let b = self.input[self.next];
            self.next = self.next + 1;
            b
        } else {
            false
        };
        proof {
            lemma_record_push(self.calls@, IoCall::ReadBit(bit));
        }
        self.calls.push(IoCall::ReadBit(bit));
        bit
    }

    fn read_bits(&mut self, num_bits: usize) -> (r: u32)
        ensures
            r as nat == msb_first(played(old(self)@.input, num_bits as nat)),
            final(self)@ == old(self)@.sampled(num_bits as nat),
    {
        let ghost start = self@;
        let mut r: u32 = 0;
        let mut i: usize = 0;
        proof {
            vstd::arithmetic::power2::lemma2_to64();
        }
        while i < num_bits
            invariant
                i <= num_bits <= 32,
                self.inv(),
                self.bus().idle(),
                self.bus().reading,
                self@ == start.sampled(i as nat),
                r as nat == msb_first(played(start.input, i as nat)),
                (r as nat) < vstd::arithmetic::power2::pow2(i as nat),
            decreases num_bits - i,
        {
            let bit = self.read_bit();
            proof {
                start.lemma_sampled_step(i as nat);
                vstd::arithmetic::power2::lemma2_to64();
                crate::spi::lemma_shift_in(r, bit);
            }
            r = crate::spi::shift_in(r, bit);
            i += 1;
        }
        proof {
            let bits = played(start.input, num_bits as nat);
            lemma_record_reads(start.record, bits);
            assert(self.bus().sampled.skip(start.bus().sampled.len() as int) =~= bits);
        }
        r
    }
}

impl Read for FakeDevice {
    fn read(&mut self, num_bits: usize) -> (r: u32)
        ensures
            r as nat == msb_first(played(old(self)@.input, num_bits as nat)),
            final(self)@ == old(self)@.sampled(num_bits as nat),
    {
        self.read_bits(num_bits)
    }
}

} // verus!
