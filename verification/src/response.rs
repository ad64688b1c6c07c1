use crate::bus::TransportError;
use crate::data::{data_of, AhtData};
use crate::error::Error;
use crate::status::{status_of, AhtStatus};
use vstd::prelude::*;

verus! {

/// Length of a full response: the status byte and five data bytes.
pub const RESPONSE_LEN: usize = 6;

/// What a read after the initialize command amounts to, given what the
/// transport reported and what the buffer then held: the status in the
/// first byte, once at least that byte has arrived.
pub open spec fn status_reply(result: Result<usize, TransportError>, buffer: Seq<u8>) -> Result<
    AhtStatus,
    Error,
>
    recommends
        buffer.len() == RESPONSE_LEN,
{
    match result {
        Err(_) => Err(Error::Transport),
        Ok(n) => if n < 1 {
            Err(Error::ShortRead)
        } else {
            Ok(status_of(buffer[0]))
        },
    }
}

/// What a read after the measure command amounts to: the two counts in
/// the five data bytes, once all six bytes have arrived and the status
/// byte shows a sensor that is neither busy nor without calibration.
/// A busy sensor is reported as busy, calibrated or not.
pub open spec fn measurement_reply(result: Result<usize, TransportError>, buffer: Seq<u8>) -> Result<
    AhtData,
    Error,
>
    recommends
        buffer.len() == RESPONSE_LEN,
{
    match result {
        Err(_) => Err(Error::Transport),
        Ok(n) => if n < RESPONSE_LEN {
            Err(Error::ShortRead)
        } else if status_of(buffer[0]).busy {
            Err(Error::DeviceBusy)
        } else if !status_of(buffer[0]).cal {
            Err(Error::NotCalibrated)
        } else {
            Ok(data_of(buffer.subrange(1, 6)))
        },
    }
}

/// Interprets the outcome of the read that follows the initialize command.
pub fn decode_status(result: Result<usize, TransportError>, buffer: &[u8; 6]) -> (res: Result<
    AhtStatus,
    Error,
>)
    ensures
        res == status_reply(result, buffer@),
{
    match result {
        Err(_) => Err(Error::Transport),
        Ok(n) => if n < 1 {
            Err(Error::ShortRead)
        } else {
            Ok(AhtStatus::from_byte(buffer[0]))
        },
    }
}

/// Interprets the outcome of the read that follows the measure command.
pub fn decode_measurement(result: Result<usize, TransportError>, buffer: &[u8; 6]) -> (res: Result<
    AhtData,
    Error,
>)
    ensures
        res == measurement_reply(result, buffer@),
        res matches Ok(data) ==> data.wf(),
{
    match result {
        Err(_) => Err(Error::Transport),
        Ok(n) => {
            if n < RESPONSE_LEN {
                return Err(Error::ShortRead);
            }
            let status = AhtStatus::from_byte(buffer[0]);
            if status.busy {
                return Err(Error::DeviceBusy);
            }
            if !status.cal {
                return Err(Error::NotCalibrated);
            }
            let frame: [u8; 5] = [buffer[1], buffer[2], buffer[3], buffer[4], buffer[5]];
            assert(frame@ =~= buffer@.subrange(1, 6));
            Ok(AhtData::from_bytes(frame))
        },
    }
}

} // verus!
