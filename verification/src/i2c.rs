use vstd::prelude::*;
use crate::bus::{Attempt, Bus, Transaction};
use crate::command::DataFormat;
use crate::error::Aw9523Error;

verus! {

/// The 7-bit bus address the chip answers to unless it is strapped otherwise.
pub const AW9523_ADDRESS: u8 = 0x58;

/// The probe that precedes a command: the command's register address is
/// written and one byte is read back. The chip takes a register write only
/// after such a read.
pub open spec fn probe_of(address: u8, command: Seq<u8>) -> Transaction {
    Transaction::WriteRead { address, bytes: seq![command[0]], read_len: 1 }
}

/// The write of a whole command.
pub open spec fn write_of(address: u8, command: Seq<u8>) -> Transaction {
    Transaction::Write { address, bytes: command }
}

/// What the adapter reports of a bus transaction: a failure of the bus is a
/// `WriteError`, whichever transaction failed.
pub open spec fn reported(ok: bool) -> Result<(), Aw9523Error> {
    if ok {
        Ok(())
    } else {
        Err(Aw9523Error::WriteError)
    }
}

/// Reports how a bus transaction ended, `ok` telling whether the bus did it.
pub fn report(ok: bool) -> (r: Result<(), Aw9523Error>)
    ensures
        r == reported(ok),
{
    if ok {
        Ok(())
    } else {
        Err(Aw9523Error::WriteError)
    }
}

/// The transport that carries commands over an I2C peripheral, to the device
/// at one fixed 7-bit address.
///
/// The adapter owns the peripheral until [`I2CInterface::release`] hands it
/// back.
pub struct I2CInterface<I2C> {
    i2c: Bus<I2C>,
    addr: u8,
}

impl<I2C> I2CInterface<I2C> where I2C: embedded_hal::blocking::i2c::Write {
    /// The address of the device that every transaction is addressed to.
    pub closed spec fn address(&self) -> u8 {
        self.addr
    }

    /// The peripheral that the adapter owns.
    pub closed spec fn bus(&self) -> I2C {
        self.i2c.handle()
    }

    /// The transactions this adapter has asked of its bus so far, oldest
    /// first, each with its outcome. Only a call of the peripheral adds an
    /// entry, and the entry is what that call was handed.
    pub closed spec fn attempts(&self) -> Seq<Attempt> {
        self.i2c.asked()
    }

    /// Binds the peripheral to the device address `addr`. The address is taken
    /// as it is, also where it does not fit in 7 bits. Nothing is sent.
    pub fn new(i2c: I2C, addr: u8) -> (r: Self)
        ensures
            r.bus() == i2c,
            r.address() == addr,
            r.attempts() == Seq::<Attempt>::empty(),
    {
        Self { i2c: Bus::new(i2c), addr }
    }

    /// Gives up the adapter and hands back the peripheral it owns; the address
    /// is dropped.
    pub fn release(self) -> (i2c: I2C)
        ensures
            i2c == self.bus(),
    {
        self.i2c.release()
    }
}

impl<I> I2CInterface<I> where
    I: embedded_hal::blocking::i2c::Write + embedded_hal::blocking::i2c::WriteRead,
 {
    /// Carries one command to the chip, the way the chip wants it: a probe of
    /// the command's register, then the write of the whole command, both at
    /// the adapter's address.
    ///
    /// A probe that fails ends the command with `WriteError` and nothing is
    /// written. After a probe that went through, the write decides: `Ok` if
    /// the bus did it, `WriteError` if not. The byte that the probe reads is
    /// not looked at. Nothing is tried twice.
    ///
    /// The command must hold its register's address, that is at least one
    /// byte.
    pub fn send_commands(&mut self, cmd: DataFormat<'_>) -> (r: Result<(), Aw9523Error>)
        requires
            cmd.names_register(),
        ensures
            final(self).address() == old(self).address(),
            old(self).attempts().is_prefix_of(final(self).attempts()),
            ({
                let address = old(self).address();
                let now = final(self).attempts();
                let n = old(self).attempts().len() as int;
                &&& now.len() > n
                &&& now[n].transaction == probe_of(address, cmd@)
                &&& !now[n].ok ==> now.len() == n + 1 && r == Err::<(), Aw9523Error>(
                    Aw9523Error::WriteError,
                )
                &&& now[n].ok ==> now.len() == n + 2 && now[n + 1].transaction == write_of(
                    address,
                    cmd@,
                ) && r == reported(now[n + 1].ok)
            }),
    {
        match cmd {
            DataFormat::U8(data) => {
                let register: [u8; 1] = [data[0]];
                let mut scratch: [u8; 1] = [0];
                assert(register@ =~= seq![data@[0]]);
                if !self.i2c.write_read(self.addr, &register, &mut scratch) {
                    return Err(Aw9523Error::WriteError);
                }
                let written = self.i2c.write(self.addr, data);
                report(written)
            },
        }
    }
}

/// Makes the I2C transport for the chip.
#[derive(Debug, Copy, Clone)]
pub struct I2CGpioExpanderInterface(());

impl I2CGpioExpanderInterface {
    /// The transport for a chip at its default address, [`AW9523_ADDRESS`].
    pub fn new<I>(i2c: I) -> (r: I2CInterface<I>) where I: embedded_hal::blocking::i2c::Write
        ensures
            r.bus() == i2c,
            r.address() == AW9523_ADDRESS,
            r.attempts() == Seq::<Attempt>::empty(),
    {
        Self::new_custom_address(i2c, AW9523_ADDRESS)
    }

    /// Create a new I2C interface with a custom address. The address is taken
    /// as it is, also where it does not fit in 7 bits.
    pub fn new_custom_address<I>(i2c: I, address: u8) -> (r: I2CInterface<I>) where
        I: embedded_hal::blocking::i2c::Write,

        ensures
            r.bus() == i2c,
            r.address() == address,
            r.attempts() == Seq::<Attempt>::empty(),
    {
        I2CInterface::new(i2c, address)
    }
}

} // verus!
