use vstd::prelude::*;

verus! {

/// The bytes of one command for the chip, tagged by their encoding.
///
/// A register write is the register's address followed by the value to store.
pub enum DataFormat<'a> {
    /// Slice of unsigned bytes
    U8(&'a [u8]),
}

impl<'a> View for DataFormat<'a> {
    type V = Seq<u8>;

    /// The bytes of the command, in the order they go out.
    open spec fn view(&self) -> Seq<u8> {
        match self {
            DataFormat::U8(bytes) => bytes@,
        }
    }
}

impl<'a> DataFormat<'a> {
    /// A command names the register it is for: it has a first byte.
    pub open spec fn names_register(&self) -> bool {
        self@.len() >= 1
    }
}

} // verus!
