//! A git-lfs custom transfer agent backed by an object store: the wire
//! protocol, the session state machine, the transfer bookkeeping and the
//! framing of output records.

pub mod json;
pub mod options;
pub mod protocol;
pub mod session;
pub mod transfer;

pub use json::{decimal, decimal_signed, frame_record};
