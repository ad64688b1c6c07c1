use vstd::prelude::*;

verus! {

/// Why an operation on the sensor failed.
#[derive(Clone, Copy, Debug, PartialEq, Eq, Structural)]
pub enum Error {
    /// The transport failed a write or a read.
    Transport,
    /// The transport delivered fewer bytes than the operation needs.
    ShortRead,
    /// The sensor has not finished converting.
    DeviceBusy,
    /// The sensor reports that it holds no calibration.
    NotCalibrated,
}

} // verus!
