use vstd::prelude::*;
use crate::command::DataFormat;
use crate::error::Aw9523Error;

verus! {

/// What the chip logic asks of anything that carries its commands.
///
/// This is the only seam between the chip logic and a bus: an I2C adapter, a
/// recording double or a logging shim can stand behind it.
pub trait Aw9523ReadWrite {
    /// The commands this transport has been handed so far, oldest first,
    /// whether or not it carried them through.
    ///
    /// A verified transport says here what its history is. The body below is
    /// for transports written outside of verified code, which cannot say it:
    /// of them the contract of `send_commands` is believed, and verified code
    /// learns nothing from this body about a transport it does not know.
    open spec fn carried(&self) -> Seq<Seq<u8>> {
        Seq::empty()
    }

    /// Carries one command to the chip.
    ///
    /// A command holds at least the address of its register. The transport
    /// alone decides whether the command succeeds, so nothing is promised of
    /// the result; either way the command is the newest entry of the history.
    /// A transport does not retry: that is left to the caller.
    fn send_commands(&mut self, cmd: DataFormat<'_>) -> (r: Result<(), Aw9523Error>)
        requires
            cmd.names_register(),
        ensures
            final(self).carried() == old(self).carried().push(cmd@),
    ;
}

} // verus!
