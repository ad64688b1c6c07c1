//! Driver for the AHT100 temperature and humidity sensor on a two-wire bus.
//!
//! The driver sends the sensor's fixed command frames, waits out the
//! settling times, reads the response back and unpacks it. It is written
//! against an abstract [`Transport`] and [`Delay`], and every operation
//! states, over a ghost trace of the steps taken, what reached the bus, in
//! what order, and how the result follows from what came back.

pub mod bus;
pub mod data;
pub mod driver;
pub mod error;
pub mod response;
pub mod status;

pub use bus::{Delay, Transport, TransportError};
pub use data::AhtData;
pub use driver::Aht100;
pub use error::Error;
pub use status::{AhtStatus, Mode};
