//! The commands of the ST7735 as the controller defines them, with typed
//! parameters.
//!
//! Every command starts and ends with `DCX` low and the bus idle. A command
//! puts its opcode on the wire as a command frame and its parameters, if it
//! has any, as data frames in the order in which they are declared; a 16-bit
//! parameter goes most significant byte first.
use crate::command_structs::{Colmod, Madctl};
use crate::driver::{send_u8, wait_u8};
use crate::spi::{
    be_bytes, frames, high_byte, lemma_be_bytes_pair, lemma_be_bytes_triple,
    lemma_msb_first_bound, lemma_one_is_batch_of_one, lemma_sent_nothing, low_byte, msb_first,
    reads, write_u16s, Bus, DcU8, DcxPin, Poll, Read, Wired, WriteBatch, WriteU8,
};
use vstd::arithmetic::power2::lemma2_to64;
use vstd::prelude::*;

verus! {

/// The three identifiers in the raw value of a 25-bit read: the first bit
/// read is a dummy, then come `ID1`, `ID2` and `ID3`, eight bits each.
pub open spec fn id_bytes(raw: u32) -> Seq<u8> {
    seq![((raw >> 16) & 0xFF) as u8, ((raw >> 8) & 0xFF) as u8, (raw & 0xFF) as u8]
}

/// What the read of the three identifiers does to a bus that is turned
/// round: 25 more bits are sampled, nothing else changes, and the identifiers
/// are cut from the number that the new bits spell.
pub open spec fn read_ids(before: Bus, after: Bus, ids: Seq<u8>) -> bool {
    let fresh = after.sampled.skip(before.sampled.len() as int);
    &&& after.sampled.len() == before.sampled.len() + 25
    &&& after == before.sampling(fresh)
    &&& ids == id_bytes(msb_first(fresh) as u32)
}

/// The wire after a whole command is the wire before it, then the opcode as
/// a command frame, then the parameter bytes as data frames in their order.
pub proof fn lemma_commanded_wire(bus: Bus, opcode: u8, params: Seq<u8>)
    ensures
        bus.commanded(opcode, params).wire == bus.wire + (seq![DcU8::Command(opcode)] + frames(
            true,
            params,
        )),
        bus.commanded(opcode, params).wire.len() == bus.wire.len() + 1 + params.len(),
        !bus.commanded(opcode, params).data_mode,
{
}

/// Splits the raw value of a 25-bit read into `ID1`, `ID2` and `ID3`.
pub fn split_ids(raw: u32) -> (ids: [u8; 3])
    ensures
        ids@ == id_bytes(raw),
{
    assert(((raw >> 16) & 0xFF) < 0x100) by (bit_vector);
    assert(((raw >> 8) & 0xFF) < 0x100) by (bit_vector);
    assert((raw & 0xFF) < 0x100) by (bit_vector);
    [((raw >> 16) & 0xFF) as u8, ((raw >> 8) & 0xFF) as u8, (raw & 0xFF) as u8]
}

/// Reads the answer to a read command whose opcode is out: turns the bus
/// round once, reads `num_bits` bits, the first one most significant, and
/// turns the bus back.
pub fn read_answer<S: Read>(spi: &mut S, num_bits: usize) -> (r: u32)
    requires
        old(spi).inv(),
        old(spi).bus().writable(),
        num_bits <= 32,
    ensures
        final(spi).inv(),
        reads(old(spi).bus().turned(), final(spi).bus(), num_bits as nat, r),
{
    spi.start_reading();
    let r = spi.read(num_bits);
    spi.finish_reading();
    r
}

/// Reads the answer to one of the commands that read one identifier: eight
/// bits.
pub fn read_one_id<S: Read>(spi: &mut S) -> (id: u8)
    requires
        old(spi).inv(),
        old(spi).bus().writable(),
    ensures
        final(spi).inv(),
        reads(old(spi).bus().turned(), final(spi).bus(), 8, id as u32),
{
    let r = read_answer(spi, 8);
    proof {
        lemma_msb_first_bound(spi.bus().sampled.skip(old(spi).bus().sampled.len() as int));
        lemma2_to64();
    }
    r as u8
}

/// Reads the answer to the command that reads the three identifiers: a
/// dummy bit and three times eight bits.
pub fn read_three_ids<S: Read>(spi: &mut S) -> (ids: [u8; 3])
    requires
        old(spi).inv(),
        old(spi).bus().writable(),
    ensures
        final(spi).inv(),
        read_ids(old(spi).bus().turned(), final(spi).bus(), ids@),
{
    let r = read_answer(spi, 25);
    split_ids(r)
}

/// The commands of the ST7735 as the controller defines them, except that the
/// parameters of each command are typed.
pub struct Commands<S> {
    spi: S,
}

impl<S: Wired> Commands<S> {
    /// The transport inside.
    pub closed spec fn inner(&self) -> S {
        self.spi
    }

    /// The state of the bus.
    pub open spec fn bus(&self) -> Bus {
        self.inner().bus()
    }

    /// Between commands the bus is idle, turned for writing, and `DCX` is low.
    pub open spec fn wf(&self) -> bool {
        &&& self.inner().inv()
        &&& self.bus().writable()
        &&& !self.bus().data_mode
    }

    /// Looks at the transport inside.
    pub fn get_ref(&self) -> (spi: &S)
        ensures
            *spi == self.inner(),
    {
        &self.spi
    }

    /// Gives the transport back.
    pub fn into_inner(self) -> (spi: S)
        ensures
            spi == self.inner(),
    {
        self.spi
    }
}

impl<S: DcxPin + WriteU8 + WriteBatch> Commands<S> {
    /// Creates a new instance with an spi object, and puts it in command
    /// mode.
    pub fn new(spi: S) -> (c: Self)
        requires
            spi.inv(),
            spi.bus().writable(),
        ensures
            c.wf(),
            c.bus() == spi.bus().with_mode(false),
    {
        let mut spi = spi;
        spi.set_dcx_command_mode();
        Self { spi }
    }

    /// Sets the column address window as `begin` to `end`, both inclusive.
    pub fn caset(&mut self, begin: u16, end: u16)
        requires
            old(self).wf(),
        ensures
            final(self).wf(),
            final(self).bus() == old(self).bus().commanded(
                0x2A,
                seq![high_byte(begin), low_byte(begin), high_byte(end), low_byte(end)],
            ),
    {
        self.command_with_u16_pair(0x2A, begin, end);
    }

    /// Sets the row address window as `begin` to `end`, both inclusive.
    pub fn raset(&mut self, begin: u16, end: u16)
        requires
            old(self).wf(),
        ensures
            final(self).wf(),
            final(self).bus() == old(self).bus().commanded(
                0x2B,
                seq![high_byte(begin), low_byte(begin), high_byte(end), low_byte(end)],
            ),
    {
        self.command_with_u16_pair(0x2B, begin, end);
    }

    /// Starts writing memory. The returned object can be used to actually do
    /// the memory writing; releasing it ends the command.
    pub fn ramwr(self) -> (w: RamWriter<S>)
        requires
            self.wf(),
        ensures
            w.inv(),
            w.bus() == self.bus().sent(0x2C).with_mode(true),
    {
        let mut c = self;
        c.command(0x2C);
        // `RamWriter::release()` will restore to command mode.
        RamWriter::begin(c.spi)
    }

    /// Starts writing the RGB lookup table.
    ///
    /// The returned object can be used to actually do the memory writing. The
    /// user is expected to write exactly 128 bytes, which is **not** enforced
    /// by the library.
    ///
    /// The lookup table is needed when the color mode is *not*
    /// [`Colmod::R6G6B6`].
    pub fn rgbset(self) -> (w: RamWriter<S>)
        requires
            self.wf(),
        ensures
            w.inv(),
            w.bus() == self.bus().sent(0x2D).with_mode(true),
    {
        let mut c = self;
        c.command(0x2D);
        // `RamWriter::release()` will restore to command mode.
        RamWriter::begin(c.spi)
    }

    /// Sets the partial area address window as `begin` to `end`, both
    /// inclusive.
    pub fn ptlar(&mut self, begin: u16, end: u16)
        requires
            old(self).wf(),
        ensures
            final(self).wf(),
            final(self).bus() == old(self).bus().commanded(
                0x30,
                seq![high_byte(begin), low_byte(begin), high_byte(end), low_byte(end)],
            ),
    {
        self.command_with_u16_pair(0x30, begin, end);
    }

    /// Sets the scroll area address windows.
    pub fn scrlar(&mut self, top: u16, visible: u16, bottom: u16)
        requires
            old(self).wf(),
        ensures
            final(self).wf(),
            final(self).bus() == old(self).bus().commanded(
                0x33,
                seq![
                    high_byte(top),
                    low_byte(top),
                    high_byte(visible),
                    low_byte(visible),
                    high_byte(bottom),
                    low_byte(bottom),
                ],
            ),
    {
        let data = [top, visible, bottom];
        proof {
            lemma_be_bytes_triple(top, visible, bottom);
        }
        self.command_with_u16_slice(0x33, data.as_slice());
    }

    /// Sends any command with two 16-bit parameters: the opcode as a command
    /// frame, then the two parameters as data frames, each most significant
    /// byte first.
    // Performance-critical enough to have its instantiated version.
    pub fn command_with_u16_pair(&mut self, cmd: u8, first: u16, second: u16)
        requires
            old(self).wf(),
        ensures
            final(self).wf(),
            final(self).bus() == old(self).bus().commanded(
                cmd,
                seq![high_byte(first), low_byte(first), high_byte(second), low_byte(second)],
            ),
    {
        let data = [first, second];
        proof {
            lemma_be_bytes_pair(first, second);
        }
        self.command(cmd);
        self.spi.set_dcx_data_mode();
        write_u16s(&mut self.spi, data.as_slice());
        self.spi.set_dcx_command_mode();
    }

    /// Sends any command with any number of 16-bit parameters: the opcode as
    /// a command frame, then each parameter in order as two data frames, most
    /// significant byte first.
    pub fn command_with_u16_slice(&mut self, cmd: u8, data: &[u16])
        requires
            old(self).wf(),
        ensures
            final(self).wf(),
            final(self).bus() == old(self).bus().commanded(cmd, be_bytes(data@)),
    {
        self.command(cmd);
        self.spi.set_dcx_data_mode();
        write_u16s(&mut self.spi, data);
        self.spi.set_dcx_command_mode();
    }
}

impl<S: DcxPin + WriteU8> Commands<S> {
    /// Sends any command without parameters: the opcode as one command
    /// frame.
    pub fn command(&mut self, cmd: u8)
        requires
            old(self).wf(),
        ensures
            final(self).wf(),
            final(self).bus() == old(self).bus().sent(cmd),
            final(self).bus() == old(self).bus().commanded(cmd, Seq::<u8>::empty()),
    {
        proof {
            lemma_sent_nothing(self.bus().sent(cmd).with_mode(true));
        }
        send_u8(&mut self.spi, cmd);
    }

    /// Sends any command with one parameter byte: the opcode as a command
    /// frame, then the parameter as a data frame.
    pub fn command_with_u8(&mut self, cmd: u8, data: u8)
        requires
            old(self).wf(),
        ensures
            final(self).wf(),
            final(self).bus() == old(self).bus().commanded(cmd, seq![data]),
    {
        proof {
            lemma_one_is_batch_of_one(self.bus().sent(cmd).with_mode(true), data);
        }
        self.command(cmd);
        self.spi.set_dcx_data_mode();
        send_u8(&mut self.spi, data);
        self.spi.set_dcx_command_mode();
    }

    /// Does nothing.
    pub fn nop(&mut self)
        requires
            old(self).wf(),
        ensures
            final(self).wf(),
            final(self).bus() == old(self).bus().commanded(0x00, Seq::<u8>::empty()),
    {
        self.command(0x00);
    }

    /// Software-resets.
    pub fn swreset(&mut self)
        requires
            old(self).wf(),
        ensures
            final(self).wf(),
            final(self).bus() == old(self).bus().commanded(0x01, Seq::<u8>::empty()),
    {
        self.command(0x01);
    }

    /// Enters the sleep mode.
    pub fn slpin(&mut self)
        requires
            old(self).wf(),
        ensures
            final(self).wf(),
            final(self).bus() == old(self).bus().commanded(0x10, Seq::<u8>::empty()),
    {
        self.command(0x10);
    }

    /// Exits the sleep mode.
    pub fn slpout(&mut self)
        requires
            old(self).wf(),
        ensures
            final(self).wf(),
            final(self).bus() == old(self).bus().commanded(0x11, Seq::<u8>::empty()),
    {
        self.command(0x11);
    }

    /// Enters the partial mode.
    pub fn ptlon(&mut self)
        requires
            old(self).wf(),
        ensures
            final(self).wf(),
            final(self).bus() == old(self).bus().commanded(0x12, Seq::<u8>::empty()),
    {
        self.command(0x12);
    }

    /// Enters the normal mode (i.e., exits the partial mode).
    pub fn noron(&mut self)
        requires
            old(self).wf(),
        ensures
            final(self).wf(),
            final(self).bus() == old(self).bus().commanded(0x13, Seq::<u8>::empty()),
    {
        self.command(0x13);
    }

    /// Disables the inversion mode.
    pub fn invoff(&mut self)
        requires
            old(self).wf(),
        ensures
            final(self).wf(),
            final(self).bus() == old(self).bus().commanded(0x20, Seq::<u8>::empty()),
    {
        self.command(0x20);
    }

    /// Enables the inversion mode.
    pub fn invon(&mut self)
        requires
            old(self).wf(),
        ensures
            final(self).wf(),
            final(self).bus() == old(self).bus().commanded(0x21, Seq::<u8>::empty()),
    {
        self.command(0x21);
    }

    /// Turns the display/screen off.
    pub fn dispoff(&mut self)
        requires
            old(self).wf(),
        ensures
            final(self).wf(),
            final(self).bus() == old(self).bus().commanded(0x28, Seq::<u8>::empty()),
    {
        self.command(0x28);
    }

    /// Turns the display/screen on.
    pub fn dispon(&mut self)
        requires
            old(self).wf(),
        ensures
            final(self).wf(),
            final(self).bus() == old(self).bus().commanded(0x29, Seq::<u8>::empty()),
    {
        self.command(0x29);
    }

    /// Turns the tear effect line off.
    pub fn teoff(&mut self)
        requires
            old(self).wf(),
        ensures
            final(self).wf(),
            final(self).bus() == old(self).bus().commanded(0x34, Seq::<u8>::empty()),
    {
        self.command(0x34);
    }

    /// Turns the tear effect line on with the given mode.
    pub fn teon(&mut self, te_mode: bool)
        requires
            old(self).wf(),
        ensures
            final(self).wf(),
            final(self).bus() == old(self).bus().commanded(
                0x35,
                seq![if te_mode {
                    1u8
                } else {
                    0u8
                }],
            ),
    {
        self.command_with_u8(
            0x35,
            if te_mode {
                1
            } else {
                0
            },
        );
    }

    /// Sets the MADCTL register.
    pub fn madctl(&mut self, data: Madctl)
        requires
            old(self).wf(),
        ensures
            final(self).wf(),
            final(self).bus() == old(self).bus().commanded(0x36, seq![data.raw()]),
    {
        self.command_with_u8(0x36, u8::from(data));
    }

    /// Turns the idle mode off, i.e., enables the full color mode.
    pub fn idmoff(&mut self)
        requires
            old(self).wf(),
        ensures
            final(self).wf(),
            final(self).bus() == old(self).bus().commanded(0x38, Seq::<u8>::empty()),
    {
        self.command(0x38);
    }

    /// Turns the idle mode on, i.e., enables the 8-color mode.
    pub fn idmon(&mut self)
        requires
            old(self).wf(),
        ensures
            final(self).wf(),
            final(self).bus() == old(self).bus().commanded(0x39, Seq::<u8>::empty()),
    {
        self.command(0x39);
    }

    /// Sets the color mode, i.e., how many bits of the R, G and B components
    /// have.
    pub fn colmod(&mut self, data: Colmod)
        requires
            old(self).wf(),
        ensures
            final(self).wf(),
            final(self).bus() == old(self).bus().commanded(0x3A, seq![data.raw()]),
    {
        self.command_with_u8(0x3A, u8::from(data));
    }
}

/// A session that can write data in u8 or u16 forms. It owns the transport
/// while it lasts, so no command can be sent in between; releasing it ends
/// the command that created it and gives the commands back.
pub struct RamWriter<S> {
    spi: S,
}

impl<S> RamWriter<S> {
    /// The transport inside.
    pub closed spec fn inner(&self) -> S {
        self.spi
    }
}

impl<S: Wired> Wired for RamWriter<S> {
    open spec fn inv(&self) -> bool {
        self.inner().inv() && !self.inner().bus().reading
    }

    open spec fn bus(&self) -> Bus {
        self.inner().bus()
    }

    open spec fn patience(&self) -> nat {
        self.inner().patience()
    }

    open spec fn latency(&self) -> nat {
        self.inner().latency()
    }
}

impl<S: DcxPin + WriteU8> RamWriter<S> {
    /// Opens the session on a transport whose opcode is out: raises `DCX`
    /// and takes the transport.
    pub fn begin(spi: S) -> (w: Self)
        requires
            spi.inv(),
            spi.bus().writable(),
        ensures
            w.inv(),
            w.bus() == spi.bus().with_mode(true),
    {
        let mut spi = spi;
        spi.set_dcx_data_mode();
        RamWriter { spi }
    }

    /// Ends the session: waits for a byte that is still in flight, puts
    /// `DCX` low again and gives the commands back.
    ///
    /// This holds however many bytes were written, and whether any were.
    pub fn release(self) -> (c: Commands<S>)
        requires
            self.inv(),
        ensures
            c.wf(),
            c.bus() == self.bus().settled().with_mode(false),
    {
        let mut spi = self.spi;
        wait_u8(&mut spi);
        spi.set_dcx_command_mode();
        Commands { spi }
    }
}

impl<S: WriteU8> WriteU8 for RamWriter<S> {
    fn write_u8(&mut self, data: u8) {
        self.spi.write_u8(data)
    }

    fn poll_write_u8(&mut self) -> (r: Poll<()>) {
        self.spi.poll_write_u8()
    }
}

impl<S: WriteBatch> WriteBatch for RamWriter<S> {
    fn write_u8_iter(&mut self, items: &[u8]) {
        self.spi.write_u8_iter(items)
    }

    fn write_u16_iter(&mut self, items: &[u16]) {
        self.spi.write_u16_iter(items)
    }
}

impl<S: DcxPin + WriteU8 + Read> Commands<S> {
    /// Sends any read command and reads its answer: the opcode as a command
    /// frame, then `num_bits` bits with the bus turned round for reading,
    /// which is turned back before the call returns.
    pub fn read_command(&mut self, cmd: u8, num_bits: usize) -> (r: u32)
        requires
            old(self).wf(),
            num_bits <= 32,
        ensures
            final(self).wf(),
            reads(old(self).bus().sent(cmd).turned(), final(self).bus(), num_bits as nat, r),
    {
        self.command(cmd);
        read_answer(&mut self.spi, num_bits)
    }

    /// Reads `ID1`, `ID2` and `ID3` of the screen with a single command.
    pub fn rddid(&mut self) -> (ids: [u8; 3])
        requires
            old(self).wf(),
        ensures
            final(self).wf(),
            read_ids(old(self).bus().sent(0x04).turned(), final(self).bus(), ids@),
    {
        let r = self.read_command(0x04, 25);
        split_ids(r)
    }

    /// Reads `ID1`, i.e., the manufacturer ID. Unless reprogrammed, the value
    /// should be 0x7C (decimal 124).
    pub fn rdid1(&mut self) -> (id: u8)
        requires
            old(self).wf(),
        ensures
            final(self).wf(),
            reads(old(self).bus().sent(0xDA).turned(), final(self).bus(), 8, id as u32),
    {
        self.read_id(0xDA)
    }

    /// Reads `ID2`' i.e., the LCD's "module/driver version ID". The highest
    /// bit is always 1.
    pub fn rdid2(&mut self) -> (id: u8)
        requires
            old(self).wf(),
        ensures
            final(self).wf(),
            reads(old(self).bus().sent(0xDB).turned(), final(self).bus(), 8, id as u32),
    {
        self.read_id(0xDB)
    }

    /// Reads `ID3`, i.e., the LCD's "module/driver ID".
    pub fn rdid3(&mut self) -> (id: u8)
        requires
            old(self).wf(),
        ensures
            final(self).wf(),
            reads(old(self).bus().sent(0xDC).turned(), final(self).bus(), 8, id as u32),
    {
        self.read_id(0xDC)
    }

    fn read_id(&mut self, cmd: u8) -> (id: u8)
        requires
            old(self).wf(),
        ensures
            final(self).wf(),
            reads(old(self).bus().sent(cmd).turned(), final(self).bus(), 8, id as u32),
    {
        let r = self.read_command(cmd, 8);
        proof {
            lemma_msb_first_bound(
                self.bus().sampled.skip(old(self).bus().sampled.len() as int),
            );
            lemma2_to64();
        }
        r as u8
    }
}

} // verus!
