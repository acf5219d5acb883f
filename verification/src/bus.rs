use vstd::prelude::*;

verus! {

/// A transaction asked of the I2C bus.
pub enum Transaction {
    /// Write `bytes` to the device at `address`, then read `read_len` bytes
    /// from it, without releasing the bus in between.
    WriteRead { address: u8, bytes: Seq<u8>, read_len: nat },
    /// Write `bytes` to the device at `address`.
    Write { address: u8, bytes: Seq<u8> },
}

/// A transaction that was asked of the bus, and whether the bus reported it
/// as done (`ok`) or as failed.
pub struct Attempt {
    pub transaction: Transaction,
    pub ok: bool,
}

/// An I2C peripheral together with the history of what was asked of it.
///
/// The history is there for the proofs only. Both fields are private to this
/// file, and nothing in it but the two calls of the peripheral,
/// [`Bus::write_read`] and [`Bus::write`], makes the history longer: whoever
/// holds a `Bus` can add an entry only by making that call.
pub(crate) struct Bus<I2C> {
    i2c: I2C,
    asked: Ghost<Seq<Attempt>>,
}

impl<I2C> Bus<I2C> {
    /// The peripheral.
    pub(crate) closed spec fn handle(&self) -> I2C {
        self.i2c
    }

    /// What was asked of the peripheral since it was taken, oldest first, each
    /// transaction with its outcome.
    pub(crate) closed spec fn asked(&self) -> Seq<Attempt> {
        self.asked@
    }

    /// Takes the peripheral, with an empty history.
    pub(crate) fn new(i2c: I2C) -> (r: Self)
        ensures
            r.handle() == i2c,
            r.asked() == Seq::<Attempt>::empty(),
    {
        Bus { i2c, asked: Ghost(Seq::empty()) }
    }

    /// Hands the peripheral back.
    pub(crate) fn release(self) -> (i2c: I2C)
        ensures
            i2c == self.handle(),
    {
        self.i2c
    }

    /// Makes the one call of `embedded_hal::blocking::i2c::WriteRead::write_read`,
    /// with the arguments as they are given, and tells whether it returned
    /// `Ok`; the peripheral's own error value is dropped.
    ///
    /// Believed, not proved: the history gains one entry, the write-then-read
    /// that the call was handed (its address, the bytes to write, the length
    /// of the buffer to fill) with the call's outcome. Nothing is claimed of
    /// the outcome itself, of the bytes read, or of the peripheral afterwards:
    /// those are the peripheral's.
    #[verifier::external_body]
    pub(crate) fn write_read(&mut self, address: u8, bytes: &[u8], buffer: &mut [u8]) -> (ok: bool)
        where I2C: embedded_hal::blocking::i2c::WriteRead
        ensures
            final(self).asked() == old(self).asked().push(
                (Attempt {
                    transaction: Transaction::WriteRead {
                        address,
                        bytes: bytes@,
                        read_len: old(buffer)@.len(),
                    },
                    ok,
                }),
            ),
    {
        self.i2c.write_read(address, bytes, buffer).is_ok()
    }

    /// Makes the one call of `embedded_hal::blocking::i2c::Write::write`, with
    /// the arguments as they are given, and tells whether it returned `Ok`;
    /// the peripheral's own error value is dropped.
    ///
    /// Believed, not proved: the history gains one entry, the write that the
    /// call was handed (its address and bytes) with the call's outcome.
    /// Nothing is claimed of the outcome itself or of the peripheral
    /// afterwards: those are the peripheral's.
    #[verifier::external_body]
    pub(crate) fn write(&mut self, address: u8, bytes: &[u8]) -> (ok: bool)
        where I2C: embedded_hal::blocking::i2c::Write
        ensures
            final(self).asked() == old(self).asked().push(
                (Attempt { transaction: Transaction::Write { address, bytes: bytes@ }, ok }),
            ),
    {
        self.i2c.write(address, bytes).is_ok()
    }
}

} // verus!
