//! A single-slot, single-use transfer cell, split into sender and receiver
//! capabilities.
//!
//! The runtime primitive this models is one uninitialized slot plus an
//! atomic readiness flag: the one send writes the slot and publishes it with
//! a release-ordered store of the flag, the one receive takes the flag back
//! with an acquire-ordered exchange and reads the slot, and doing either
//! twice — or receiving before the send — would read or overwrite storage
//! it must not touch.  Here the slot is an option and the cell's whole life
//! is the abstract state `Empty -> Sent -> Consumed`; the forbidden calls
//! are ruled out by precondition instead of a runtime assertion, and each
//! capability is consumed by value, so it is usable exactly once.

use vstd::prelude::*;

verus! {

/// Where a one-shot cell stands in its life: untouched, holding the one
/// message, or already read out.  `Consumed` is terminal.
pub enum CellState<T> {
    /// No send has happened yet.
    Empty,
    /// The one send has happened; its message awaits the one receive.
    Sent(T),
    /// The one receive has happened.
    Consumed,
}

/// A cell through which exactly one message passes: written at most once,
/// read at most once, and read only after the readiness flag says the
/// write has been published.
pub struct Channel<T> {
    message: Option<T>,
    ready: bool,
    consumed: Ghost<bool>,
}

impl<T> Channel<T> {
    /// Whether the readiness flag is up: a message was sent and not yet
    /// received.
    pub closed spec fn is_ready_spec(self) -> bool {
        self.ready
    }

    /// Where the cell stands in its `Empty -> Sent -> Consumed` life.
    pub closed spec fn state(self) -> CellState<T> {
        if self.ready {
            CellState::Sent(self.message.unwrap())
        } else if self.consumed@ {
            CellState::Consumed
        } else {
            CellState::Empty
        }
    }

    /// The cell's invariant: the slot holds a message exactly while the
    /// readiness flag is up.
    pub closed spec fn wf(self) -> bool {
        self.ready <==> self.message is Some
    }

    /// Creates an untouched cell.
    pub fn new() -> (cell: Self)
        ensures
            cell.wf(),
            cell.state() is Empty,
    {
        Channel { message: None, ready: false, consumed: Ghost(false) }
    }

    /// The one send: writes the message into the slot and raises the
    /// readiness flag, publishing it to the receiving side.  Sending into
    /// a cell that is not untouched would overwrite the slot, so the
    /// precondition forbids it — this call happens at most once per cell.
    pub fn send(&mut self, message: T)
        requires
            old(self).wf(),
            old(self).state() is Empty,
        ensures
            final(self).wf(),
            final(self).state() == CellState::Sent(message),
    {
        self.message = Some(message);
        self.ready = true;
    }

    /// A non-consuming peek at the readiness flag, for polling.  In the
    /// runtime primitive this load is relaxed: it says a message is there,
    /// and nothing about any other memory.
    pub fn is_ready(&self) -> (ready: bool)
        requires
            self.wf(),
        ensures
            ready == self.is_ready_spec(),
            ready == (self.state() is Sent),
    {
        self.ready
    }

    /// Splits this cell into its two capabilities.  The cell is reset
    /// first — whatever life it had is discarded, and a message it still
    /// held is destroyed with it — so the pair starts an untouched
    /// `Empty -> Sent -> Consumed` life of its own: one send right and one
    /// receive right over one cell.
    pub fn split(self) -> (pair: (Sender<T>, Receiver<T>))
        ensures
            pair.1.wf(),
            pair.1.state() is Empty,
    {
        (
            Sender { marker: core::marker::PhantomData },
            Receiver { cell: Channel::new() },
        )
    }

    /// The one receive: takes the readiness flag back down and moves the
    /// message out of the slot.  The runtime primitive asserts that the
    /// flag was up and stops the thread otherwise; the precondition rules
    /// that misuse out, so the sent message is returned — never a stale or
    /// made-up value — and the cell is left consumed for good.
    pub fn receive(&mut self) -> (message: T)
        requires
            old(self).wf(),
            old(self).state() is Sent,
        ensures
            final(self).wf(),
            final(self).state() is Consumed,
            old(self).state() == CellState::Sent(message),
    {
        self.consumed = Ghost(true);
        self.ready = false;
        let taken = self.message.take();
        match taken {
            Some(m) => m,
            None => vstd::pervasive::unreached(),
        }
    }
}

/// The capability to perform the one send on a one-shot cell.  It has no
/// other use, and [`Sender::send`] consumes it, so it grants exactly one
/// send.
pub struct Sender<T> {
    marker: core::marker::PhantomData<T>,
}

/// The capability to watch and perform the one receive on the one-shot
/// cell it holds.  [`Receiver::receive`] consumes it, so it grants exactly
/// one receive.
pub struct Receiver<T> {
    cell: Channel<T>,
}

/// Creates a connected one-shot pair: a send capability and a receive
/// capability over one fresh cell.
pub fn channel<T>() -> (pair: (Sender<T>, Receiver<T>))
    ensures
        pair.1.wf(),
        pair.1.state() is Empty,
{
    Channel::new().split()
}

impl<T> Sender<T> {
    /// Sends the one message into the receiver's cell, consuming this
    /// capability: a second send has no capability left to perform it, and
    /// a cell that has already seen its send rejects another by
    /// precondition.
    pub fn send(self, receiver: &mut Receiver<T>, message: T)
        requires
            old(receiver).wf(),
            old(receiver).state() is Empty,
        ensures
            final(receiver).wf(),
            final(receiver).state() == CellState::Sent(message),
    {
        receiver.cell.send(message);
    }
}

impl<T> Receiver<T> {
    /// The invariant of the held cell.
    pub open spec fn wf(self) -> bool {
        self.cell_spec().wf()
    }

    /// The held cell, for stating contracts.
    pub closed spec fn cell_spec(self) -> Channel<T> {
        self.cell
    }

    /// Where the held cell stands in its life.
    pub open spec fn state(self) -> CellState<T> {
        self.cell_spec().state()
    }

    /// Polls whether the one message has been sent and still awaits this
    /// receiver.
    pub fn is_ready(&self) -> (ready: bool)
        requires
            self.wf(),
        ensures
            ready == (self.state() is Sent),
    {
        self.cell.is_ready()
    }

    /// Receives the one message, consuming this capability: exactly the
    /// value that was sent comes out, and no receive can follow.
    pub fn receive(self) -> (message: T)
        requires
            self.wf(),
            self.state() is Sent,
        ensures
            self.state() == CellState::Sent(message),
    {
        let mut cell = self.cell;
        cell.receive()
    }
}

} // verus!
