//! The write commands as operations that are advanced by polling, for callers
//! that bring their own driver.
//!
//! A [`CommandWriting`] holds one command: its opcode and its parameter
//! bytes. Polling it against a transport in command mode sends the opcode as
//! a command frame, raises `DCX`, sends the parameters as data frames and
//! lowers `DCX` again, one byte at a time and never waiting for the hardware.
use crate::adapters::split_u16;
use crate::command_structs::{Colmod, Madctl};
use crate::driver::{Operation, Polled, WriteU8Done};
use crate::spi::{high_byte, low_byte, Bus, DcU8, DcxPin, Poll, WriteU8};
use vstd::prelude::*;

verus! {

/// One write command on its way.
pub struct CommandWriting {
    opcode: u8,
    params: [u8; 6],
    len: usize,
    sent: usize,
    current_write: Option<WriteU8Done>,
    finished: bool,
}

impl CommandWriting {
    /// The opcode of the command.
    pub closed spec fn opcode(&self) -> u8 {
        self.opcode
    }

    /// The parameter bytes of the command, in the order in which they go.
    pub closed spec fn params(&self) -> Seq<u8> {
        self.params@.take(self.len as int)
    }

    /// The number of bytes that have been started, the opcode included.
    pub closed spec fn started(&self) -> nat {
        self.sent as nat
    }

    /// Whether a byte has been started and not yet seen complete.
    pub closed spec fn writing(&self) -> bool {
        self.current_write is Some
    }

    /// Whether the command is complete: every byte is out and `DCX` is low.
    pub closed spec fn finished(&self) -> bool {
        self.finished
    }

    /// The books of the operation are in order.
    pub closed spec fn wf(&self) -> bool {
        &&& self.len <= 6
        &&& self.sent <= self.len + 1
        &&& self.current_write matches Some(h) ==> !h.complete()
        &&& self.finished ==> self.sent == self.len + 1 && self.current_write is None
    }

    /// The frames of the command: the opcode as a command frame, then the
    /// parameters as data frames.
    pub open spec fn script(&self) -> Seq<DcU8> {
        Seq::new(
            self.params().len() + 1,
            |i: int|
                if i == 0 {
                    DcU8::Command(self.opcode())
                } else {
                    DcU8::Data(self.params()[i - 1])
                },
        )
    }

    /// The frames that have not been started yet.
    pub open spec fn rest(&self) -> Seq<DcU8> {
        self.script().skip(self.started() as int)
    }

    /// The bus once the byte in flight and all the frames not started yet
    /// are out and `DCX` is low again.
    pub open spec fn plan(&self, bus: Bus) -> Bus {
        if self.finished() {
            bus
        } else {
            Bus { data_mode: false, wire: bus.settled().wire + self.rest(), in_flight: None, ..bus }
        }
    }

    /// Whether a poll finds the byte that this operation has in flight still
    /// busy.
    pub open spec fn waits(&self, bus: Bus, patience: nat) -> bool {
        self.writing() && bus.busy(patience)
    }

    /// The number of bytes started after one poll: as many as before while
    /// the byte in flight is busy; all of them on hardware that is never
    /// busy; else one more, if there is one.
    pub open spec fn started_after(&self, bus: Bus, patience: nat, latency: nat) -> nat {
        if self.waits(bus, patience) || self.rest().len() == 0 {
            self.started()
        } else if latency == 0 {
            self.script().len()
        } else {
            self.started() + 1
        }
    }

    /// A command that has not been started.
    fn with_params(opcode: u8, params: [u8; 6], len: usize) -> (op: Self)
        requires
            len <= 6,
        ensures
            op.wf(),
            op.opcode() == opcode,
            op.params() == params@.take(len as int),
            op.started() == 0,
            !op.writing(),
            !op.finished(),
    {
        CommandWriting { opcode, params, len, sent: 0, current_write: None, finished: false }
    }

    fn plain(opcode: u8) -> (op: Self)
        ensures
            op.fresh(opcode, Seq::empty()),
    {
        let op = Self::with_params(opcode, [0, 0, 0, 0, 0, 0], 0);
        assert(op.params() =~= Seq::<u8>::empty());
        op
    }

    fn with_u8(opcode: u8, data: u8) -> (op: Self)
        ensures
            op.fresh(opcode, seq![data]),
    {
        let op = Self::with_params(opcode, [data, 0, 0, 0, 0, 0], 1);
        assert(op.params() =~= seq![data]);
        op
    }

    fn with_u16_pair(opcode: u8, first: u16, second: u16) -> (op: Self)
        ensures
            op.fresh(
                opcode,
                seq![high_byte(first), low_byte(first), high_byte(second), low_byte(second)],
            ),
    {
        let (a, b) = split_u16(first);
        let (c, d) = split_u16(second);
        let op = Self::with_params(opcode, [a, b, c, d, 0, 0], 4);
        assert(op.params() =~= seq![a, b, c, d]);
        op
    }

    /// The operation has this opcode and these parameters, and nothing of it
    /// has been started.
    pub open spec fn fresh(&self, opcode: u8, params: Seq<u8>) -> bool {
        &&& self.wf()
        &&& self.opcode() == opcode
        &&& self.params() == params
        &&& self.started() == 0
        &&& !self.writing()
        &&& !self.finished()
    }

    /// Does nothing.
    pub fn nop() -> (op: Self)
        ensures
            op.fresh(0x00, Seq::empty()),
    {
        Self::plain(0x00)
    }

    /// Software-resets.
    pub fn swreset() -> (op: Self)
        ensures
            op.fresh(0x01, Seq::empty()),
    {
        Self::plain(0x01)
    }

    /// Enters the sleep mode.
    pub fn slpin() -> (op: Self)
        ensures
            op.fresh(0x10, Seq::empty()),
    {
        Self::plain(0x10)
    }

    /// Exits the sleep mode.
    pub fn slpout() -> (op: Self)
        ensures
            op.fresh(0x11, Seq::empty()),
    {
        Self::plain(0x11)
    }

    /// Enters the partial mode.
    pub fn ptlon() -> (op: Self)
        ensures
            op.fresh(0x12, Seq::empty()),
    {
        Self::plain(0x12)
    }

    /// Enters the normal mode (i.e., exits the partial mode).
    pub fn noron() -> (op: Self)
        ensures
            op.fresh(0x13, Seq::empty()),
    {
        Self::plain(0x13)
    }

    /// Disables the inversion mode.
    pub fn invoff() -> (op: Self)
        ensures
            op.fresh(0x20, Seq::empty()),
    {
        Self::plain(0x20)
    }

    /// Enables the inversion mode.
    pub fn invon() -> (op: Self)
        ensures
            op.fresh(0x21, Seq::empty()),
    {
        Self::plain(0x21)
    }

    /// Turns the display/screen off.
    pub fn dispoff() -> (op: Self)
        ensures
            op.fresh(0x28, Seq::empty()),
    {
        Self::plain(0x28)
    }

    /// Turns the display/screen on.
    pub fn dispon() -> (op: Self)
        ensures
            op.fresh(0x29, Seq::empty()),
    {
        Self::plain(0x29)
    }

    /// Reads `ID1`, `ID2` and `ID3`: the opcode, after which the answer is
    /// read with [`crate::commands::read_three_ids`].
    pub fn rddid() -> (op: Self)
        ensures
            op.fresh(0x04, Seq::empty()),
    {
        Self::plain(0x04)
    }

    /// Reads `ID1`: the opcode, after which the answer is read with
    /// [`crate::commands::read_one_id`].
    pub fn rdid1() -> (op: Self)
        ensures
            op.fresh(0xDA, Seq::empty()),
    {
        Self::plain(0xDA)
    }

    /// Reads `ID2`: the opcode, after which the answer is read with
    /// [`crate::commands::read_one_id`].
    pub fn rdid2() -> (op: Self)
        ensures
            op.fresh(0xDB, Seq::empty()),
    {
        Self::plain(0xDB)
    }

    /// Reads `ID3`: the opcode, after which the answer is read with
    /// [`crate::commands::read_one_id`].
    pub fn rdid3() -> (op: Self)
        ensures
            op.fresh(0xDC, Seq::empty()),
    {
        Self::plain(0xDC)
    }

    /// Starts writing memory: the opcode, after which the session is opened
    /// with [`crate::commands::RamWriter::begin`].
    pub fn ramwr() -> (op: Self)
        ensures
            op.fresh(0x2C, Seq::empty()),
    {
        Self::plain(0x2C)
    }

    /// Starts writing the RGB lookup table: the opcode, after which the
    /// session is opened with [`crate::commands::RamWriter::begin`].
    pub fn rgbset() -> (op: Self)
        ensures
            op.fresh(0x2D, Seq::empty()),
    {
        Self::plain(0x2D)
    }

    /// Sets the column address window as `begin` to `end`, both inclusive.
    pub fn caset(begin: u16, end: u16) -> (op: Self)
        ensures
            op.fresh(
                0x2A,
                seq![high_byte(begin), low_byte(begin), high_byte(end), low_byte(end)],
            ),
    {
        Self::with_u16_pair(0x2A, begin, end)
    }

    /// Sets the row address window as `begin` to `end`, both inclusive.
    pub fn raset(begin: u16, end: u16) -> (op: Self)
        ensures
            op.fresh(
                0x2B,
                seq![high_byte(begin), low_byte(begin), high_byte(end), low_byte(end)],
            ),
    {
        Self::with_u16_pair(0x2B, begin, end)
    }

    /// Sets the partial area address window as `begin` to `end`, both
    /// inclusive.
    pub fn ptlar(begin: u16, end: u16) -> (op: Self)
        ensures
            op.fresh(
                0x30,
                seq![high_byte(begin), low_byte(begin), high_byte(end), low_byte(end)],
            ),
    {
        Self::with_u16_pair(0x30, begin, end)
    }

    /// Sets the scroll area address windows.
    pub fn scrlar(top: u16, visible: u16, bottom: u16) -> (op: Self)
        ensures
            op.fresh(
                0x33,
                seq![
                    high_byte(top),
                    low_byte(top),
                    high_byte(visible),
                    low_byte(visible),
                    high_byte(bottom),
                    low_byte(bottom),
                ],
            ),
    {
        let (a, b) = split_u16(top);
        let (c, d) = split_u16(visible);
        let (e, f) = split_u16(bottom);
        let op = Self::with_params(0x33, [a, b, c, d, e, f], 6);
        assert(op.params() =~= seq![a, b, c, d, e, f]);
        op
    }

    /// Turns the tear effect line off.
    pub fn teoff() -> (op: Self)
        ensures
            op.fresh(0x34, Seq::empty()),
    {
        Self::plain(0x34)
    }

    /// Turns the tear effect line on with the given mode.
    pub fn teon(te_mode: bool) -> (op: Self)
        ensures
            op.fresh(
                0x35,
                seq![if te_mode {
                    1u8
                } else {
                    0u8
                }],
            ),
    {
        Self::with_u8(
            0x35,
            if te_mode {
                1
            } else {
                0
            },
        )
    }

    /// Sets the MADCTL register.
    pub fn madctl(data: Madctl) -> (op: Self)
        ensures
            op.fresh(0x36, seq![data.raw()]),
    {
        Self::with_u8(0x36, u8::from(data))
    }

    /// Turns the idle mode off, i.e., enables the full color mode.
    pub fn idmoff() -> (op: Self)
        ensures
            op.fresh(0x38, Seq::empty()),
    {
        Self::plain(0x38)
    }

    /// Turns the idle mode on, i.e., enables the 8-color mode.
    pub fn idmon() -> (op: Self)
        ensures
            op.fresh(0x39, Seq::empty()),
    {
        Self::plain(0x39)
    }

    /// Sets the color mode, i.e., how many bits of the R, G and B components
    /// have.
    pub fn colmod(data: Colmod) -> (op: Self)
        ensures
            op.fresh(0x3A, seq![data.raw()]),
    {
        Self::with_u8(0x3A, u8::from(data))
    }
}

/// A command that has not been started ends, on a bus in command mode, with
/// the bus that the command is defined to leave.
pub proof fn lemma_fresh_plan(op: CommandWriting, opcode: u8, params: Seq<u8>, bus: Bus)
    requires
        op.fresh(opcode, params),
        bus.writable(),
        !bus.data_mode,
    ensures
        op.plan(bus) == bus.commanded(opcode, params),
{
}

impl<S: DcxPin + WriteU8> Operation<S> for CommandWriting {
    open spec fn inv(&self, bus: Bus) -> bool {
        &&& self.wf()
        &&& !bus.reading
        &&& self.writing() || bus.idle()
        &&& self.finished() ==> !bus.data_mode
        &&& !self.finished() ==> (bus.data_mode <==> self.started() >= 2)
    }

    open spec fn goal(&self, bus: Bus) -> Bus {
        self.plan(bus)
    }

    open spec fn stages(&self) -> nat {
        self.rest().len()
    }

    open spec fn outcome(&self, bus: Bus, patience: nat, latency: nat) -> Polled {
        if self.finished() {
            Polled { ready: true, bus, patience }
        } else if self.waits(bus, patience) {
            // The byte in flight is not out: nothing is started.
            Polled { ready: false, bus, patience: (patience - 1) as nat }
        } else if self.rest().len() == 0 {
            Polled { ready: true, bus: self.plan(bus), patience }
        } else if latency == 0 {
            // Hardware that is never busy takes the whole rest at once.
            Polled { ready: true, bus: self.plan(bus), patience: 0 }
        } else {
            // The next byte is started, at its level of `DCX`, and found busy.
            Polled {
                ready: false,
                bus: Bus {
                    data_mode: self.started() >= 1,
                    in_flight: Some(self.rest()[0]),
                    ..bus.settled()
                },
                patience: (latency - 1) as nat,
            }
        }
    }

    fn poll(&mut self, b: &mut S) -> (r: Poll<()>)
        ensures
            final(self).opcode() == old(self).opcode(),
            final(self).params() == old(self).params(),
            final(self).finished() == (r is Ready),
            final(self).writing() == (r is Pending),
            final(self).started() == old(self).started_after(
                old(b).bus(),
                old(b).patience(),
                old(b).latency(),
            ),
    {
        let ghost script = self.script();
        let ghost from = self.started();
        let ghost first_patience = b.patience();
        if self.finished {
            return Poll::Ready(());
        }
        // The byte in flight.
        let mut done = true;
        if let Some(h) = &mut self.current_write {
            done = h.is_done(b);
        }
        if !done {
            return Poll::Pending;
        }
        self.current_write = None;
        let ghost base = b.bus();
        // What is left, as far as the hardware takes it.
        while self.sent <= self.len
            invariant
                b.inv(),
                self.wf(),
                !self.finished,
                self.current_write is None,
                self.script() == script,
                self.opcode() == old(self).opcode(),
                self.params() == old(self).params(),
                b.latency() == old(b).latency(),
                from == old(self).started(),
                from <= self.sent <= self.len + 1,
                script.len() == self.len + 1,
                base == old(b).bus().settled(),
                base.idle(),
                !base.reading,
                base.data_mode <==> from >= 2,
                !old(self).finished(),
                !old(self).waits(old(b).bus(), old(b).patience()),
                first_patience == old(b).patience(),
                b.bus() == (Bus {
                    data_mode: if self.sent > from {
                        self.sent >= 2
                    } else {
                        base.data_mode
                    },
                    wire: base.wire + script.subrange(from as int, self.sent as int),
                    ..base
                }),
                self.sent == from ==> b.patience() == first_patience,
                self.sent > from ==> b.latency() == 0 && b.patience() == 0,
            decreases self.len + 1 - self.sent,
        {
            if self.sent == 1 {
                b.set_dcx_data_mode();
            }
            let byte = if self.sent == 0 {
                self.opcode
            } else {
                self.params[self.sent - 1]
            };
            b.write_u8(byte);
            self.sent = self.sent + 1;
            let mut h = WriteU8Done::new();
            if !h.is_done(b) {
                self.current_write = Some(h);
                return Poll::Pending;
            }
        }
        // Every byte is out.
        if self.len > 0 {
            b.set_dcx_command_mode();
        }
        self.finished = true;
        Poll::Ready(())
    }
}

} // verus!
