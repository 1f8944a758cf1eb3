//! A minimal driver for suspended operations, for platforms without a
//! scheduler.
//!
//! An [`Operation`] is a unit of work on a transport that is advanced by
//! polling. [`TrivialWaker::block_on`] polls one operation until it is
//! complete. There is no timeout at this layer: a deadline is the caller's
//! business.
use crate::spi::{frame, Bus, Poll, Wired, WriteU8};
use vstd::prelude::*;

verus! {

/// What one poll of an operation comes to.
#[verifier::ext_equal]
pub struct Polled {
    /// Whether the poll answers `Ready`.
    pub ready: bool,
    /// The bus after the poll.
    pub bus: Bus,
    /// The patience of the hardware after the poll.
    pub patience: nat,
}

/// A unit of work on a transport `B` that is advanced by polling.
pub trait Operation<B: Wired> {
    /// What the operation needs of the bus whenever it is polled.
    spec fn inv(&self, bus: Bus) -> bool;

    /// The bus as it will be when the operation is complete, seen from the
    /// bus as it is now. Polling never changes this.
    spec fn goal(&self, bus: Bus) -> Bus;

    /// The number of pieces of work that have not been started yet.
    spec fn stages(&self) -> nat;

    /// What one poll comes to, given the bus, the patience that the hardware
    /// has left for the byte in flight, and its latency for each new byte.
    spec fn outcome(&self, bus: Bus, patience: nat, latency: nat) -> Polled;

    /// Advances the operation as far as the hardware allows and says whether
    /// it is complete. The poll never waits: it returns `Pending` as soon as
    /// the hardware answers "busy".
    ///
    /// `Pending` comes only finitely often: each time either a stage has been
    /// started or the hardware has used up some of its patience.
    fn poll(&mut self, b: &mut B) -> (r: Poll<()>)
        requires
            old(b).inv(),
            old(self).inv(old(b).bus()),
        ensures
            final(b).inv(),
            final(self).inv(final(b).bus()),
            final(b).latency() == old(b).latency(),
            r is Ready <==> old(self).outcome(
                old(b).bus(),
                old(b).patience(),
                old(b).latency(),
            ).ready,
            final(b).bus() == old(self).outcome(
                old(b).bus(),
                old(b).patience(),
                old(b).latency(),
            ).bus,
            final(b).patience() == old(self).outcome(
                old(b).bus(),
                old(b).patience(),
                old(b).latency(),
            ).patience,
            final(self).goal(final(b).bus()) == old(self).goal(old(b).bus()),
            r is Ready ==> final(b).bus() == old(self).goal(old(b).bus()),
            r is Pending ==> {
                ||| final(self).stages() < old(self).stages()
                ||| (final(self).stages() == old(self).stages() && final(b).patience() < old(
                    b,
                ).patience())
            },
    ;
}

/// A byte that has been started is on the wire whenever the bus is idle
/// again, whatever happened to the handle in between: waited for, given up,
/// or never looked at.
///
/// `started` is the bus as the start of the byte left it, `later` any bus
/// that polling can lead to from there.
pub proof fn lemma_started_byte_arrives(before: Bus, started: Bus, later: Bus, byte: u8)
    requires
        before.idle(),
        started.settled() == before.sent(byte),
        later.settled() == started.settled(),
        later.idle(),
    ensures
        later == before.sent(byte),
        later.wire == before.wire.push(frame(before.data_mode, byte)),
{
}

/// The handle of one byte write: the byte has been started and is either
/// pending or complete.
///
/// The handle remembers completion, so the hardware is not asked again once
/// it has answered.
pub struct WriteU8Done {
    done: bool,
}

impl WriteU8Done {
    /// Whether the handle has seen the byte complete.
    pub closed spec fn complete(&self) -> bool {
        self.done
    }

    /// The handle for a byte that was just started.
    pub fn new() -> (h: Self)
        ensures
            !h.complete(),
    {
        WriteU8Done { done: false }
    }

    /// What one readiness check comes to: a handle that has seen the byte
    /// complete says so without asking; any other asks the hardware once.
    pub open spec fn checked(&self, bus: Bus, patience: nat) -> Polled {
        if self.complete() {
            Polled { ready: true, bus, patience }
        } else if bus.busy(patience) {
            Polled { ready: false, bus, patience: (patience - 1) as nat }
        } else {
            Polled { ready: true, bus: bus.settled(), patience }
        }
    }

    /// Asks whether the byte is out, going to the hardware only while the
    /// answer was no, and then exactly once.
    pub fn is_done<W: WriteU8>(&mut self, w: &mut W) -> (done: bool)
        requires
            old(w).inv(),
            old(self).complete() ==> old(w).bus().idle(),
        ensures
            final(w).inv(),
            final(w).latency() == old(w).latency(),
            done == final(self).complete(),
            done == old(self).checked(old(w).bus(), old(w).patience()).ready,
            final(w).bus() == old(self).checked(old(w).bus(), old(w).patience()).bus,
            final(w).patience() == old(self).checked(old(w).bus(), old(w).patience()).patience,
            final(self).complete() ==> final(w).bus().idle(),
    {
        if self.done {
            return true;
        }
        match w.poll_write_u8() {
            Poll::Ready(_) => {
                self.done = true;
                true
            },
            Poll::Pending => false,
        }
    }

    /// Gives up the handle. Giving up is logical, never physical: the call
    /// returns only when the byte is out, so the bus is idle for whatever
    /// comes next and the byte is on the wire.
    pub fn cancel<W: WriteU8>(self, w: &mut W)
        requires
            old(w).inv(),
            self.complete() ==> old(w).bus().idle(),
        ensures
            final(w).inv(),
            final(w).bus() == old(w).bus().settled(),
    {
        let mut h = self;
        while !h.is_done(w)
            invariant
                w.inv(),
                h.complete() ==> w.bus().idle(),
                w.bus().settled() == old(w).bus().settled(),
            ensures
                w.bus().idle(),
            decreases w.patience(),
        {
        }
    }
}

impl<W: WriteU8> Operation<W> for WriteU8Done {
    open spec fn inv(&self, bus: Bus) -> bool {
        self.complete() ==> bus.idle()
    }

    open spec fn goal(&self, bus: Bus) -> Bus {
        bus.settled()
    }

    open spec fn stages(&self) -> nat {
        0
    }

    open spec fn outcome(&self, bus: Bus, patience: nat, latency: nat) -> Polled {
        self.checked(bus, patience)
    }

    fn poll(&mut self, b: &mut W) -> (r: Poll<()>) {
        if self.is_done(b) {
            Poll::Ready(())
        } else {
            Poll::Pending
        }
    }
}

/// A driver that polls one operation at a time until it is complete.
///
/// It keeps one sticky flag, which says that progress may have been made since
/// the flag was last looked at. The driver sets the flag itself before every
/// poll, so it busy-waits; the flag is the place where a wake-up from an
/// interrupt would come in.
pub struct TrivialWaker {
    waked: bool,
}

impl TrivialWaker {
    /// Whether the flag is set.
    pub closed spec fn waked(&self) -> bool {
        self.waked
    }

    /// A driver with the flag clear.
    pub fn new() -> (t: Self)
        ensures
            !t.waked(),
    {
        TrivialWaker { waked: false }
    }

    /// Says whether the flag was set, and clears it.
    pub fn test_waked_and_clear(&mut self) -> (was: bool)
        ensures
            was == old(self).waked(),
            !final(self).waked(),
    {
        let was = self.waked;
        self.waked = false;
        was
    }

    /// Sets the flag.
    pub fn wake(&mut self)
        ensures
            final(self).waked(),
    {
        self.waked = true;
    }

    /// Polls and busy-waits until `op` is complete.
    pub fn block_on<B: Wired, O: Operation<B>>(&mut self, op: &mut O, b: &mut B)
        requires
            old(b).inv(),
            old(op).inv(old(b).bus()),
        ensures
            final(b).inv(),
            final(b).bus() == old(op).goal(old(b).bus()),
            final(op).inv(final(b).bus()),
            !final(self).waked(),
    {
        loop
            invariant
                b.inv(),
                op.inv(b.bus()),
                op.goal(b.bus()) == old(op).goal(old(b).bus()),
            ensures
                b.inv(),
                b.bus() == old(op).goal(old(b).bus()),
                op.inv(b.bus()),
                !self.waked(),
            decreases op.stages(), b.patience(),
        {
            self.wake();
            if !self.test_waked_and_clear() {
                continue ;
            }
            match op.poll(b) {
                Poll::Ready(_) => {
                    break ;
                },
                Poll::Pending => {},
            }
        }
    }
}

/// Waits until the byte in flight, if there is one, is out.
pub fn wait_u8<W: WriteU8>(w: &mut W)
    requires
        old(w).inv(),
    ensures
        final(w).inv(),
        final(w).bus() == old(w).bus().settled(),
{
    let mut op = WriteU8Done::new();
    let mut driver = TrivialWaker::new();
    driver.block_on(&mut op, w);
}

/// Writes one byte and waits until it is out.
pub fn send_u8<W: WriteU8>(w: &mut W, data: u8)
    requires
        old(w).inv(),
        old(w).bus().writable(),
    ensures
        final(w).inv(),
        final(w).bus() == old(w).bus().sent(data),
{
    w.write_u8(data);
    wait_u8(w);
}

} // verus!
