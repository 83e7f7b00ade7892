//! Adapts a blocking serial byte stream to the serial traits of embedded-hal.
//!
//! The library holds the decisions of the adapter: how a stream's error is
//! classified, and how the outcome of one blocking stream call becomes the
//! result that the non-blocking or the blocking HAL trait hands back. The
//! stream calls themselves are made by the caller, who hands their outcome
//! over with the error reduced to its `std::io::ErrorKind`.

pub mod blocking;
mod error;
pub mod nonblocking;

pub use error::SerialError;
