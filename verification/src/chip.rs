use vstd::prelude::*;
use crate::command::DataFormat;
use crate::error::Aw9523Error;
use crate::transport::Aw9523ReadWrite;

verus! {

/// The register writes that bring the chip into its working configuration,
/// each a register's address and the value stored there, in the order they
/// are issued.
///
/// | register | value        | what it sets                      |
/// |----------|--------------|-----------------------------------|
/// | `0x02`   | `0b00000101` | port 0 direction and mode         |
/// | `0x03`   | `0b00000011` | port 1 direction and mode         |
/// | `0x04`   | `0b00011000` | port 0 output mode                |
/// | `0x05`   | `0b00001100` | port 1 output mode                |
/// | `0x11`   | `0b00010000` | global control                    |
/// | `0x13`   | `0b11111111` | interrupt mask                    |
pub open spec fn init_sequence() -> Seq<Seq<u8>> {
    seq![
        seq![0x02u8, 0b00000101u8],
        seq![0x03u8, 0b00000011u8],
        seq![0x04u8, 0b00011000u8],
        seq![0x05u8, 0b00001100u8],
        seq![0x11u8, 0b00010000u8],
        seq![0x13u8, 0b11111111u8],
    ]
}

/// The chip, behind the transport that reaches it.
pub struct Aw9523<I> {
    interface: I,
}

impl<I> Aw9523<I> where I: Aw9523ReadWrite {
    /// The transport this driver owns.
    pub closed spec fn transport(&self) -> I {
        self.interface
    }

    /// Takes ownership of the transport. Nothing is sent.
    pub fn new(interface: I) -> (r: Self)
        ensures
            r.transport() == interface,
    {
        Self { interface }
    }

    /// Configures the chip: hands the six register writes of
    /// [`init_sequence`] to the transport, in that order, and nothing else.
    ///
    /// This is best effort. A write that the transport reports as failed does
    /// not stop the sequence and is not reported: all six are always handed
    /// over and the result is always `Ok`. Nothing is read back from the chip.
    pub fn init(&mut self) -> (r: Result<(), Aw9523Error>)
        ensures
            r == Ok::<(), Aw9523Error>(()),
            final(self).transport().carried() == old(self).transport().carried()
                + init_sequence(),
    {
        let _ = self.interface.send_commands(DataFormat::U8(&[0x02, 0b00000101]));
        let _ = self.interface.send_commands(DataFormat::U8(&[0x03, 0b00000011]));
        let _ = self.interface.send_commands(DataFormat::U8(&[0x04, 0b00011000]));
        let _ = self.interface.send_commands(DataFormat::U8(&[0x05, 0b00001100]));
        let _ = self.interface.send_commands(DataFormat::U8(&[0x11, 0b00010000]));
        let _ = self.interface.send_commands(DataFormat::U8(&[0x13, 0b11111111]));
        assert(self.transport().carried() =~= old(self).transport().carried() + init_sequence());
        Ok(())
    }
}

} // verus!
