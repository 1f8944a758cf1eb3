//! The capabilities a transport offers, and the model of the bus they act on.
//!
//! The minimum for the write commands is [`DcxPin`] with one of [`WriteU8`]
//! and [`WriteU8s`]; an adapter from [`crate::adapters`] supplies the other
//! and [`WriteBatch`]. Reading needs [`ReadModeSetter`], [`ReadBits`] and
//! [`Read`] as well.
//!
//! # Suspension
//!
//! A byte write is split in two: [`WriteU8::write_u8`] starts the hardware and
//! returns at once, [`WriteU8::poll_write_u8`] asks whether the hardware is
//! still busy. Between the two the byte is *in flight*. Nothing else may touch
//! the bus while a byte is in flight: every other operation requires an idle
//! bus, so the only way forward is to poll until the byte is out.
use vstd::arithmetic::power2::{lemma2_to64, lemma_pow2_unfold, pow2};
use vstd::prelude::*;

verus! {

/// One byte on the wire together with the level of `DCX` while it was sent.
#[derive(Clone, Copy, Debug, PartialEq, Eq, Structural)]
pub enum DcU8 {
    /// Sent with `DCX` low.
    Command(u8),
    /// Sent with `DCX` high.
    Data(u8),
}

/// The result of asking a suspended operation whether it is through.
#[derive(Debug, PartialEq, Eq)]
pub enum Poll<T> {
    /// The operation is complete, with this result.
    Ready(T),
    /// The hardware is still busy: ask again.
    Pending,
}

/// The state of the bus as the controller sees it.
#[verifier::ext_equal]
pub struct Bus {
    /// The level of `DCX`: high for data, low for commands.
    pub data_mode: bool,
    /// Whether the lines are turned round for reading.
    pub reading: bool,
    /// The bytes that have been shifted out completely, oldest first.
    pub wire: Seq<DcU8>,
    /// The byte that the hardware is shifting out now, if any.
    pub in_flight: Option<DcU8>,
    /// The bits that have been sampled from the data line, oldest first.
    pub sampled: Seq<bool>,
    /// The number of times that the bus has been turned round for reading.
    pub turns: nat,
}

/// The high byte of a 16-bit parameter.
pub open spec fn high_byte(v: u16) -> u8 {
    (v >> 8) as u8
}

/// The low byte of a 16-bit parameter.
pub open spec fn low_byte(v: u16) -> u8 {
    (v & 0xFF) as u8
}

/// The bytes of a sequence of 16-bit parameters, each most significant byte
/// first.
pub open spec fn be_bytes(words: Seq<u16>) -> Seq<u8> {
    Seq::new(
        2 * words.len(),
        |i: int|
            if i % 2 == 0 {
                high_byte(words[i / 2])
            } else {
                low_byte(words[i / 2])
            },
    )
}

/// The frame that a byte makes at a given level of `DCX`.
pub open spec fn frame(data_mode: bool, byte: u8) -> DcU8 {
    if data_mode {
        DcU8::Data(byte)
    } else {
        DcU8::Command(byte)
    }
}

/// The frames that a run of bytes makes at a given level of `DCX`.
pub open spec fn frames(data_mode: bool, bytes: Seq<u8>) -> Seq<DcU8> {
    Seq::new(bytes.len(), |i: int| frame(data_mode, bytes[i]))
}

/// The number that a run of bits spells, first bit most significant.
pub open spec fn msb_first(bits: Seq<bool>) -> nat
    decreases bits.len(),
{
    if bits.len() == 0 {
        0
    } else {
        2 * msb_first(bits.drop_last()) + if bits.last() {
            1nat
        } else {
            0nat
        }
    }
}

impl Bus {
    /// No byte is in flight.
    pub open spec fn idle(self) -> bool {
        self.in_flight is None
    }

    /// A write may start: the bus is idle and not turned round for reading.
    pub open spec fn writable(self) -> bool {
        self.idle() && !self.reading
    }

    /// The bus with `DCX` at the given level.
    pub open spec fn with_mode(self, data_mode: bool) -> Bus {
        Bus { data_mode, ..self }
    }

    /// The bus turned round for reading, once more than before.
    pub open spec fn turned_round(self) -> Bus {
        Bus { reading: true, turns: self.turns + 1, ..self }
    }

    /// The bus turned back for writing.
    pub open spec fn turned_back(self) -> Bus {
        Bus { reading: false, ..self }
    }

    /// The bus after it was turned round for reading once and turned back.
    pub open spec fn turned(self) -> Bus {
        self.turned_round().turned_back()
    }

    /// The bus with one more byte started at the present level of `DCX`: the
    /// byte is in flight and not yet on the wire.
    pub open spec fn started(self, byte: u8) -> Bus {
        Bus { in_flight: Some(frame(self.data_mode, byte)), ..self }
    }

    /// Whether the hardware answers a poll with "busy": a byte is in flight
    /// and `patience` polls will still find it so.
    pub open spec fn busy(self, patience: nat) -> bool {
        self.in_flight is Some && patience > 0
    }

    /// The bus once the byte in flight, if there is one, is out.
    pub open spec fn settled(self) -> Bus {
        match self.in_flight {
            Some(f) => Bus { wire: self.wire.push(f), in_flight: None, ..self },
            None => self,
        }
    }

    /// The bus after one more byte has gone out at the present level of `DCX`.
    pub open spec fn sent(self, byte: u8) -> Bus {
        Bus { wire: self.wire.push(frame(self.data_mode, byte)), ..self }
    }

    /// The bus after a run of bytes has gone out, in order, at the present
    /// level of `DCX`.
    pub open spec fn sent_all(self, bytes: Seq<u8>) -> Bus {
        Bus { wire: self.wire + frames(self.data_mode, bytes), ..self }
    }

    /// The bus after more bits have been sampled.
    pub open spec fn sampling(self, bits: Seq<bool>) -> Bus {
        Bus { sampled: self.sampled + bits, ..self }
    }

    /// The bus after a whole command: the opcode as a command frame, the
    /// parameter bytes as data frames, and `DCX` low again.
    pub open spec fn commanded(self, opcode: u8, params: Seq<u8>) -> Bus {
        Bus {
            data_mode: false,
            wire: self.wire.push(DcU8::Command(opcode)) + frames(true, params),
            ..self
        }
    }
}

/// Sending one byte and then a run is sending the byte in front of the run.
pub proof fn lemma_sent_then_all(bus: Bus, first: u8, rest: Seq<u8>)
    ensures
        bus.sent(first).sent_all(rest) == bus.sent_all(seq![first] + rest),
{
}

/// Sending a run and then one byte is sending the run with the byte behind it.
pub proof fn lemma_all_then_sent(bus: Bus, run: Seq<u8>, last: u8)
    ensures
        bus.sent_all(run).sent(last) == bus.sent_all(run.push(last)),
{
}

/// A batch write of no bytes leaves the bus as it was: nothing reaches the
/// wire, and `DCX` and the direction stay as the surrounding command set
/// them.
pub proof fn lemma_sent_nothing(bus: Bus)
    ensures
        bus.sent_all(Seq::<u8>::empty()) == bus,
        bus.sent_all(be_bytes(Seq::<u16>::empty())) == bus,
{
}

/// A single-byte write and a batch write of that one byte put the same frame
/// on the wire.
pub proof fn lemma_one_is_batch_of_one(bus: Bus, byte: u8)
    ensures
        bus.sent(byte) == bus.sent_all(seq![byte]),
{
}

/// The bytes of a run of 16-bit values with one more value behind it.
pub proof fn lemma_be_bytes_push(words: Seq<u16>, last: u16)
    ensures
        be_bytes(words.push(last)) == be_bytes(words).push(high_byte(last)).push(low_byte(last)),
{
}

/// The bytes of two 16-bit parameters.
pub proof fn lemma_be_bytes_pair(first: u16, second: u16)
    ensures
        be_bytes(seq![first, second]) == seq![
            high_byte(first),
            low_byte(first),
            high_byte(second),
            low_byte(second),
        ],
{
}

/// The bytes of three 16-bit parameters.
pub proof fn lemma_be_bytes_triple(first: u16, second: u16, third: u16)
    ensures
        be_bytes(seq![first, second, third]) == seq![
            high_byte(first),
            low_byte(first),
            high_byte(second),
            low_byte(second),
            high_byte(third),
            low_byte(third),
        ],
{
}

/// A run of bits spells a number below two to the power of its length.
pub proof fn lemma_msb_first_bound(bits: Seq<bool>)
    ensures
        msb_first(bits) < pow2(bits.len()),
    decreases bits.len(),
{
    if bits.len() == 0 {
        lemma2_to64();
    } else {
        lemma_msb_first_bound(bits.drop_last());
        lemma_pow2_unfold(bits.len());
    }
}

/// Setting `DCX` to a level twice is setting it once.
pub proof fn lemma_mode_idempotent(bus: Bus, data_mode: bool)
    ensures
        bus.with_mode(data_mode).with_mode(data_mode) == bus.with_mode(data_mode),
{
}

/// Anything that stands on a bus.
pub trait Wired {
    /// What the transport keeps true of itself between calls. Every
    /// capability asks for it and gives it back.
    spec fn inv(&self) -> bool;

    /// The state of the bus.
    spec fn bus(&self) -> Bus;

    /// The number of polls that will still find the hardware busy with the
    /// byte in flight.
    spec fn patience(&self) -> nat;

    /// The number of polls for which the hardware is busy with each byte
    /// that it starts.
    spec fn latency(&self) -> nat;
}

/// Defines how the `DCX` pin operates.
///
/// Both operations are synchronous and idempotent. The pin is sampled with the
/// last bit of each byte, so it must not move while a byte is in flight.
pub trait DcxPin: Wired {
    /// Toggles the DCX pin to the command mode (LOW value).
    fn set_dcx_command_mode(&mut self)
        requires
            old(self).inv(),
            old(self).bus().idle(),
        ensures
            final(self).inv(),
            final(self).bus() == old(self).bus().with_mode(false),
            final(self).patience() == old(self).patience(),
            final(self).latency() == old(self).latency(),
    ;

    /// Toggles the DCX pin to the data mode (HIGH value).
    fn set_dcx_data_mode(&mut self)
        requires
            old(self).inv(),
            old(self).bus().idle(),
        ensures
            final(self).inv(),
            final(self).bus() == old(self).bus().with_mode(true),
            final(self).patience() == old(self).patience(),
            final(self).latency() == old(self).latency(),
    ;
}

/// Defines how a single byte is written with the `SCK` and `SDA` pins.
///
/// Common MCUs' SPI peripheral can be used, with CPOL=1, CPHA=1 and MSB-first.
pub trait WriteU8: Wired {
    /// Starts shifting `data` out and returns without waiting for it.
    ///
    /// From here on the byte will reach the wire, whatever the caller does
    /// next: the bus is not idle again before it has. The hardware will
    /// answer "busy" to as many polls as its latency says; where the latency
    /// is not zero the byte is in flight when the call returns.
    fn write_u8(&mut self, data: u8)
        requires
            old(self).inv(),
            old(self).bus().writable(),
        ensures
            final(self).inv(),
            final(self).bus().settled() == old(self).bus().sent(data),
            old(self).latency() > 0 ==> final(self).bus() == old(self).bus().started(data),
            final(self).patience() == old(self).latency(),
            final(self).latency() == old(self).latency(),
    ;

    /// Asks the hardware once whether the byte in flight is out.
    ///
    /// The answer is `Pending` exactly if a byte is in flight and the
    /// hardware has patience left; such a poll uses up one poll of patience
    /// and changes nothing else. Otherwise the answer is `Ready`, and the
    /// byte that was in flight, if any, is on the wire.
    fn poll_write_u8(&mut self) -> (r: Poll<()>)
        requires
            old(self).inv(),
        ensures
            final(self).inv(),
            final(self).latency() == old(self).latency(),
            r is Pending <==> old(self).bus().busy(old(self).patience()),
            r is Pending ==> final(self).bus() == old(self).bus(),
            r is Pending ==> final(self).patience() == old(self).patience() - 1,
            r is Ready ==> final(self).bus() == old(self).bus().settled(),
            r is Ready ==> final(self).patience() == old(self).patience(),
    ;
}

/// Defines how a run of bytes is written with the `SCK` and `SDA` pins in one
/// go, for hardware that can do better than byte by byte.
pub trait WriteU8s: Wired {
    /// The batches that the transport has taken, oldest first: one entry
    /// for each call of [`WriteU8s::write_u8s`], with the bytes of that call.
    spec fn batches(&self) -> Seq<Seq<u8>>;

    /// Writes `data` in order, as one batch, and returns when the last byte
    /// is out.
    fn write_u8s(&mut self, data: &[u8])
        requires
            old(self).inv(),
            old(self).bus().writable(),
        ensures
            final(self).inv(),
            final(self).bus() == old(self).bus().sent_all(data@),
            final(self).batches() == old(self).batches().push(data@),
    ;
}

/// Defines how a sequence of `u8` or `u16` is written with the `SCK` and `SDA`
/// pins.
///
/// When the run-time performance is not critical, the user can choose to only
/// implement [`WriteU8`], then use [`crate::adapters::AdapterU8`] to get this
/// trait, which sends the next byte only when the previous one is out.
pub trait WriteBatch: WriteU8 {
    /// Writes the bytes in order and returns when the last one is out.
    fn write_u8_iter(&mut self, items: &[u8])
        requires
            old(self).inv(),
            old(self).bus().writable(),
        ensures
            final(self).inv(),
            final(self).bus() == old(self).bus().sent_all(items@),
    ;

    /// Writes the 16-bit values in order, each most significant byte first,
    /// and returns when the last byte is out.
    fn write_u16_iter(&mut self, items: &[u16])
        requires
            old(self).inv(),
            old(self).bus().writable(),
        ensures
            final(self).inv(),
            final(self).bus() == old(self).bus().sent_all(be_bytes(items@)),
    ;
}

/// Convenient function to write a run of bytes.
pub fn write_u8s<S: WriteBatch>(spi: &mut S, items: &[u8])
    requires
        old(spi).inv(),
        old(spi).bus().writable(),
    ensures
        final(spi).inv(),
        final(spi).bus() == old(spi).bus().sent_all(items@),
{
    spi.write_u8_iter(items)
}

/// Convenient function to write a run of 16-bit values, each most significant
/// byte first.
pub fn write_u16s<S: WriteBatch>(spi: &mut S, items: &[u16])
    requires
        old(spi).inv(),
        old(spi).bus().writable(),
    ensures
        final(spi).inv(),
        final(spi).bus() == old(spi).bus().sent_all(be_bytes(items@)),
{
    spi.write_u16_iter(items)
}

/// Defines how the MCU should switch the SPI between the reading and writing
/// modes.
pub trait ReadModeSetter: Wired {
    /// Turns the bus round for reading.
    fn start_reading(&mut self)
        requires
            old(self).inv(),
            old(self).bus().writable(),
        ensures
            final(self).inv(),
            final(self).bus() == old(self).bus().turned_round(),
    ;

    /// Turns the bus back for writing.
    fn finish_reading(&mut self)
        requires
            old(self).inv(),
            old(self).bus().idle(),
            old(self).bus().reading,
        ensures
            final(self).inv(),
            final(self).bus() == old(self).bus().turned_back(),
    ;
}

/// Defines one read cycle on a bus that is turned round for reading, and
/// builds reads of several bits from it.
pub trait ReadBits: Wired {
    /// One read cycle: clock low, settle, sample the data line, clock high,
    /// settle. Returns the level sampled.
    fn read_bit(&mut self) -> (bit: bool)
        requires
            old(self).inv(),
            old(self).bus().idle(),
            old(self).bus().reading,
        ensures
            final(self).inv(),
            final(self).bus() == old(self).bus().sampling(seq![bit]),
    ;

    /// Performs exactly `num_bits` read cycles and returns the bits sampled,
    /// the first one most significant.
    fn read_bits(&mut self, num_bits: usize) -> (r: u32)
        requires
            old(self).inv(),
            old(self).bus().idle(),
            old(self).bus().reading,
            num_bits <= 32,
        ensures
            final(self).inv(),
            reads(old(self).bus(), final(self).bus(), num_bits as nat, r),
    {
        let mut r: u32 = 0;
        let mut i: usize = 0;
        let ghost start = self.bus();
        proof {
            lemma2_to64();
        }
        while i < num_bits
            invariant
                i <= num_bits <= 32,
                self.inv(),
                self.bus().idle(),
                self.bus().reading,
                reads(start, self.bus(), i as nat, r),
                (r as nat) < pow2(i as nat),
            decreases num_bits - i,
        {
            let ghost before = self.bus();
            let ghost seen = before.sampled.skip(start.sampled.len() as int);
            let bit = self.read_bit();
            proof {
                let now = self.bus().sampled.skip(start.sampled.len() as int);
                assert(now.drop_last() =~= seen);
                assert(self.bus() =~= start.sampling(now));
                lemma2_to64();
                lemma_shift_in(r, bit);
            }
            r = shift_in(r, bit);
            i += 1;
        }
        r
    }
}

/// Defines how the MCU should use the `SCK` and `SDA` pins to read data.
///
/// Reading is mostly for debugging; the user can choose not to implement it.
/// The write commands still work in that case.
pub trait Read: ReadModeSetter {
    /// Reads `num_bits` bits, the first one most significant.
    fn read(&mut self, num_bits: usize) -> (r: u32)
        requires
            old(self).inv(),
            old(self).bus().idle(),
            old(self).bus().reading,
            num_bits <= 32,
        ensures
            final(self).inv(),
            reads(old(self).bus(), final(self).bus(), num_bits as nat, r),
    ;
}

/// A read session. It owns the transport, which is turned round for reading
/// while the session lasts; releasing the session turns the bus back and
/// gives the transport back.
pub struct BitsReader<S> {
    spi: S,
}

impl<S: Wired> BitsReader<S> {
    /// The transport inside.
    pub closed spec fn inner(&self) -> S {
        self.spi
    }

    /// The state of the bus.
    pub open spec fn bus(&self) -> Bus {
        self.inner().bus()
    }

    /// While the session lasts the bus is idle and turned round for reading.
    pub open spec fn wf(&self) -> bool {
        &&& self.inner().inv()
        &&& self.bus().idle()
        &&& self.bus().reading
    }
}

impl<S: ReadModeSetter + ReadBits> BitsReader<S> {
    /// Turns the bus round for reading and opens the session.
    pub fn start_reading(spi: S) -> (reader: Self)
        requires
            spi.inv(),
            spi.bus().writable(),
        ensures
            reader.wf(),
            reader.bus() == spi.bus().turned_round(),
    {
        let mut spi = spi;
        spi.start_reading();
        BitsReader { spi }
    }

    /// Performs exactly `num_bits` read cycles and returns the bits sampled,
    /// the first one most significant.
    pub fn read_bits(&mut self, num_bits: usize) -> (r: u32)
        requires
            old(self).wf(),
            num_bits <= 32,
        ensures
            final(self).wf(),
            reads(old(self).bus(), final(self).bus(), num_bits as nat, r),
    {
        self.spi.read_bits(num_bits)
    }

    /// Ends the session: turns the bus back for writing and gives the
    /// transport back. This holds however many bits were read, and whether
    /// any were.
    pub fn release(self) -> (spi: S)
        requires
            self.wf(),
        ensures
            spi.inv(),
            spi.bus() == self.bus().turned_back(),
            spi.bus().writable(),
    {
        let mut spi = self.spi;
        spi.finish_reading();
        spi
    }
}

/// What a read of `n` bits with result `r` does to the bus: `n` more bits are
/// sampled, nothing else changes, and the new bits spell `r`.
pub open spec fn reads(before: Bus, after: Bus, n: nat, r: u32) -> bool {
    let fresh = after.sampled.skip(before.sampled.len() as int);
    &&& after.sampled.len() == before.sampled.len() + n
    &&& after == before.sampling(fresh)
    &&& r as nat == msb_first(fresh)
}

/// The accumulator after one more bit has come in at the low end.
pub open spec fn spec_shift_in(acc: u32, bit: bool) -> u32 {
    (acc << 1) | (if bit {
        1u32
    } else {
        0u32
    })
}

/// Shifts the accumulator up by one and puts `bit` in the free place. The top
/// bit of the accumulator falls off.
#[verifier::when_used_as_spec(spec_shift_in)]
pub fn shift_in(acc: u32, bit: bool) -> (r: u32)
    ensures
        r == spec_shift_in(acc, bit),
{
    let low: u32 = if bit {
        1
    } else {
        0
    };
    (acc << 1) | low
}

/// Below the top bit, shifting a bit in doubles the accumulator and adds the
/// bit.
pub proof fn lemma_shift_in(acc: u32, bit: bool)
    requires
        acc < 0x8000_0000,
    ensures
        shift_in(acc, bit) == 2 * acc + if bit {
            1int
        } else {
            0int
        },
{
    assert(acc < 0x8000_0000u32 ==> ((acc << 1) | 1u32) == 2 * acc + 1) by (bit_vector);
    assert(acc < 0x8000_0000u32 ==> ((acc << 1) | 0u32) == 2 * acc) by (bit_vector);
}

} // verus!
