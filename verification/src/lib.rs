//! Driver for the AW9523 GPIO expander, a chip reached over I2C.
//!
//! The chip logic ([`Aw9523`]) talks to a transport ([`Aw9523ReadWrite`]) and
//! never to a bus; [`I2CInterface`] carries commands over a blocking I2C
//! peripheral of `embedded-hal`.
//!
//! The contracts speak of two histories, which exist for the proofs only: the
//! commands a transport has been handed ([`Aw9523ReadWrite::carried`]), and
//! the transactions the I2C adapter has asked of its bus, each with its
//! outcome ([`I2CInterface::attempts`]).

pub mod bus;
pub mod chip;
pub mod command;
pub mod error;
pub mod i2c;
pub mod transport;

pub use chip::Aw9523;
pub use command::DataFormat;
pub use error::Aw9523Error;
pub use i2c::{I2CGpioExpanderInterface, I2CInterface};
pub use transport::Aw9523ReadWrite;
