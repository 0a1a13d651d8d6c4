//! What the driver asks of a bus: a write followed by a read, and a plain
//! write. An implementation over I2C or SPI provides the two.
use vstd::prelude::*;

pub use crate::i2c::SlaveAddr;

verus! {

/// The two kinds of bus transaction.
#[derive(Debug, Copy, Clone, PartialEq, Eq, Structural)]
pub enum TransferKind {
    /// Bytes written, then bytes read, in one transaction
    WriteRead,
    /// Bytes written
    Write,
}

/// A bus on which the device can be reached. Nothing is promised of what the
/// device answers or of whether a transaction succeeds.
///
/// An implementation may say what its transactions do, in `write_read_spec`
/// and `write_spec`. One that says nothing keeps the two as they stand here:
/// anything may come back.
pub trait Interface {
    /// Error type of the bus
    type Error: core::fmt::Debug;

    /// Whether a write of `write` followed by a read may take the bus from
    /// `pre` to `post`, leave `read` in the buffer and end in `r`.
    open spec fn write_read_spec(
        pre: &Self,
        write: Seq<u8>,
        post: &Self,
        read: Seq<u8>,
        r: Result<(), Self::Error>,
    ) -> bool {
        true
    }

    /// Whether a write of `data` may take the bus from `pre` to `post` and
    /// end in `r`.
    open spec fn write_spec(
        pre: &Self,
        data: Seq<u8>,
        post: &Self,
        r: Result<(), Self::Error>,
    ) -> bool {
        true
    }

    /// Writes `write` to the device, then reads `read.len()` bytes into `read`.
    fn write_read(&mut self, write: &[u8], read: &mut [u8]) -> (r: Result<(), Self::Error>)
        ensures
            Self::write_read_spec(&*old(self), write@, &*final(self), final(read)@, r),
    ;

    /// Writes `data` to the device.
    fn write(&mut self, data: &[u8]) -> (r: Result<(), Self::Error>)
        ensures
            Self::write_spec(&*old(self), data@, &*final(self), r),
    ;
}

impl<I: Interface> Interface for &mut I {
    type Error = I::Error;

    /// A borrowed bus does what the bus does.
    open spec fn write_read_spec(
        pre: &Self,
        write: Seq<u8>,
        post: &Self,
        read: Seq<u8>,
        r: Result<(), Self::Error>,
    ) -> bool {
        I::write_read_spec(&**pre, write, &**post, read, r)
    }

    /// A borrowed bus does what the bus does.
    open spec fn write_spec(
        pre: &Self,
        data: Seq<u8>,
        post: &Self,
        r: Result<(), Self::Error>,
    ) -> bool {
        I::write_spec(&**pre, data, &**post, r)
    }

    /// Makes the transaction on the bus that is borrowed.
    fn write_read(&mut self, write: &[u8], read: &mut [u8]) -> (r: Result<(), Self::Error>) {
        I::write_read(self, write, read)
    }

    /// Makes the transaction on the bus that is borrowed.
    fn write(&mut self, data: &[u8]) -> (r: Result<(), Self::Error>) {
        I::write(self, data)
    }
}

/// One completed bus transaction: what was sent, what the read buffer held
/// afterwards (nothing, for a plain write), how it ended, and the bus before
/// and after it.
pub struct Transfer<I: Interface> {
    /// Which of the two kinds it was
    pub kind: TransferKind,
    /// The bytes written to the device
    pub sent: Seq<u8>,
    /// The read buffer after the transaction; empty for a plain write
    pub received: Seq<u8>,
    /// What the bus returned
    pub outcome: Result<(), I::Error>,
    /// The bus when the transaction began
    pub before: I,
    /// The bus when the transaction had ended
    pub after: I,
}

impl<I: Interface> Transfer<I> {
    /// Whether the transaction is one that the bus says it may make.
    pub open spec fn allowed(self) -> bool {
        match self.kind {
            TransferKind::WriteRead => I::write_read_spec(
                &self.before,
                self.sent,
                &self.after,
                self.received,
                self.outcome,
            ),
            TransferKind::Write => I::write_spec(
                &self.before,
                self.sent,
                &self.after,
                self.outcome,
            ),
        }
    }
}

/// The record of a plain write of `data` that took the bus from `before` to
/// `after` and ended in `outcome`.
pub open spec fn write_transfer<I: Interface>(
    before: I,
    data: Seq<u8>,
    outcome: Result<(), I::Error>,
    after: I,
) -> Transfer<I> {
    Transfer {
        kind: TransferKind::Write,
        sent: data,
        received: Seq::empty(),
        outcome,
        before,
        after,
    }
}

/// The record of a write of `sent` followed by a read that left `received`
/// in the buffer, took the bus from `before` to `after` and ended in
/// `outcome`.
pub open spec fn write_read_transfer<I: Interface>(
    before: I,
    sent: Seq<u8>,
    received: Seq<u8>,
    outcome: Result<(), I::Error>,
    after: I,
) -> Transfer<I> {
    Transfer { kind: TransferKind::WriteRead, sent, received, outcome, before, after }
}

/// A bus together with the record of every transaction made on it.
///
/// The record grows only in `write_read` and `write`, each of which makes one
/// transaction on the bus and adds what that transaction did: whoever holds a
/// `Recorded` bus can tell from its history what was sent over the bus and
/// what came back.
pub struct Recorded<I: Interface> {
    bus: I,
    log: Ghost<Seq<Transfer<I>>>,
}

impl<I: Interface> Recorded<I> {
    /// The bus itself.
    pub closed spec fn bus(&self) -> I {
        self.bus
    }

    /// All transactions made so far, oldest first.
    pub closed spec fn history(&self) -> Seq<Transfer<I>> {
        self.log@
    }

    /// Starts a record for `bus`, with no transaction in it.
    pub fn new(bus: I) -> (r: Self)
        ensures
            r.bus() == bus,
            r.history() == Seq::<Transfer<I>>::empty(),
    {
        Recorded { bus, log: Ghost(Seq::empty()) }
    }

    /// Gives the bus back.
    pub fn into_inner(self) -> (bus: I)
        ensures
            bus == self.bus(),
    {
        self.bus
    }

    /// Writes `write` to the device, then reads `N` bytes into `read`, in one
    /// transaction of the bus, and records the transaction.
    pub fn write_read<const N: usize>(&mut self, write: &[u8], read: &mut [u8; N]) -> (r: Result<
        (),
        I::Error,
    >)
        ensures
            I::write_read_spec(&old(self).bus(), write@, &final(self).bus(), final(read)@, r),
            final(self).history() == old(self).history().push(
                write_read_transfer(old(self).bus(), write@, final(read)@, r, final(self).bus()),
            ),
    {
        let ghost before = self.bus;
        let r = self.bus.write_read(write, read);
        self.log = Ghost(self.log@.push(write_read_transfer(before, write@, read@, r, self.bus)));
        r
    }

    /// Writes `data` to the device, in one transaction of the bus, and
    /// records the transaction.
    pub fn write(&mut self, data: &[u8]) -> (r: Result<(), I::Error>)
        ensures
            I::write_spec(&old(self).bus(), data@, &final(self).bus(), r),
            final(self).history() == old(self).history().push(
                write_transfer(old(self).bus(), data@, r, final(self).bus()),
            ),
    {
        let ghost before = self.bus;
        let r = self.bus.write(data);
        self.log = Ghost(self.log@.push(write_transfer(before, data@, r, self.bus)));
        r
    }
}

} // verus!
