use vstd::prelude::*;

verus! {

/// The ways an operation of the driver can fail.
///
/// `NotSupported`, `InvalidArgument` and `ReadError` are reserved: no operation
/// of this crate reports them yet. The I2C transport reports every failure of
/// its bus as `WriteError`, also when the failing transaction was the
/// write-then-read probe.
#[derive(Debug, Clone, Copy, PartialEq, Eq, Structural)]
pub enum Aw9523Error {
    NotSupported,
    InvalidArgument,
    ReadError,
    WriteError,
}

} // verus!
