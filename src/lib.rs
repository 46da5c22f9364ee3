//! Two small value types: a validated `Ticket` record and `SaturatingU16`,
//! a 16-bit counter whose addition clamps at `u16::MAX`.

pub mod saturating;
pub mod ticket;

pub use saturating::SaturatingU16;
pub use ticket::{Ticket, TicketError};
