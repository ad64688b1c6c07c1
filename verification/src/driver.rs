use crate::bus::{Delay, Event, Traced, Transport};
use crate::data::AhtData;
use crate::error::Error;
use crate::response::{
    decode_measurement,
    decode_status,
    measurement_reply,
    status_reply,
    RESPONSE_LEN,
};
use crate::status::AhtStatus;
use vstd::prelude::*;

verus! {

/// The sensor's fixed bus address.
pub const ADDR: u8 = 0x38;

/// Soft reset command.
pub const CMD_RESET: u8 = 0xBA;

/// Initialize command.
pub const CMD_INIT: u8 = 0xE1;

/// First argument of the initialize command.
pub const INIT_ARG1: u8 = 0x08;

/// Second argument of the initialize command.
pub const INIT_ARG2: u8 = 0x00;

/// Trigger-measurement command.
pub const CMD_MEASURE: u8 = 0xAC;

/// First argument of the trigger-measurement command.
pub const MEASURE_ARG1: u8 = 0x33;

/// Second argument of the trigger-measurement command.
pub const MEASURE_ARG2: u8 = 0x00;

/// Milliseconds that the sensor needs after power-on before it accepts the
/// initialize command.
pub const POWER_ON_MS: u16 = 40;

/// Milliseconds that the sensor needs after a command before its response
/// can be read.
pub const SETTLE_MS: u16 = 75;

/// The frame that resets the sensor.
pub open spec fn reset_frame() -> Seq<u8> {
    seq![CMD_RESET]
}

/// The frame that initializes the sensor.
pub open spec fn init_frame() -> Seq<u8> {
    seq![CMD_INIT, INIT_ARG1, INIT_ARG2]
}

/// The frame that triggers a measurement.
pub open spec fn measure_frame() -> Seq<u8> {
    seq![CMD_MEASURE, MEASURE_ARG1, MEASURE_ARG2]
}

/// The write of a command frame to the sensor.
pub open spec fn sent(frame: Seq<u8>, ok: bool) -> Event {
    Event::Write { address: ADDR, bytes: frame, ok }
}

/// The steps of a command whose write the transport accepted: the write,
/// the settling wait, then `read`, the read of the response.
pub open spec fn exchange(frame: Seq<u8>, read: Event) -> Seq<Event> {
    seq![sent(frame, true), Event::Wait { ms: SETTLE_MS }, read]
}

/// `read` is a read of a full response from the sensor.
pub open spec fn is_response(read: Event) -> bool {
    read matches Event::Read { address, buffer, .. } && address == ADDR && buffer.len()
        == RESPONSE_LEN
}

/// Handle on one sensor. It owns the transport and keeps no other state.
pub struct Aht100<I2C> {
    i2c: Traced<I2C>,
}

impl<I2C: Transport> Aht100<I2C> {
    /// The transport that the handle owns.
    pub closed spec fn bus(self) -> I2C {
        self.i2c.inner()
    }

    /// Every wait, write and read that the handle has carried out, oldest
    /// first.
    pub closed spec fn trace(self) -> Seq<Event> {
        self.i2c.trace()
    }

    /// Takes the transport. Nothing is sent to the sensor.
    pub fn new(i2c: I2C) -> (dev: Self)
        ensures
            dev.bus() == i2c,
            dev.trace() == Seq::<Event>::empty(),
    {
        Self { i2c: Traced::new(i2c) }
    }

    /// Sends the reset command.
    ///
    /// Succeeds exactly when the transport accepts the write.
    pub fn reset(&mut self) -> (res: Result<(), Error>)
        ensures
            final(self).trace() == old(self).trace().push(sent(reset_frame(), res is Ok)),
            res is Err ==> res == Err::<(), Error>(Error::Transport),
    {
        let frame: [u8; 1] = [CMD_RESET];
        assert(frame@ =~= reset_frame());
        match self.i2c.write(ADDR, &frame) {
            Ok(_) => Ok(()),
            Err(_) => Err(Error::Transport),
        }
    }

    /// Initializes the sensor and returns the status that it reports.
    ///
    /// Waits out the power-on time and sends the initialize command. If
    /// the transport refuses the write, that is the end. Otherwise the
    /// settling time is waited out and the response is read; the result
    /// is what `status_reply` makes of that read.
    pub fn init<D: Delay>(&mut self, delay: &mut D) -> (res: Result<AhtStatus, Error>)
        ensures
            match final(self).trace().last() {
                Event::Read { address, buffer, result } => {
                    let read = final(self).trace().last();
                    &&& final(self).trace() == old(self).trace().push(
                        Event::Wait { ms: POWER_ON_MS },
                    ) + exchange(init_frame(), read)
                    &&& is_response(read)
                    &&& res == status_reply(result, buffer)
                },
                _ => {
                    &&& final(self).trace() == old(self).trace().push(
                        Event::Wait { ms: POWER_ON_MS },
                    ).push(sent(init_frame(), false))
                    &&& res == Err::<AhtStatus, Error>(Error::Transport)
                },
            },
    {
        self.i2c.wait(delay, POWER_ON_MS);
        let frame: [u8; 3] = [CMD_INIT, INIT_ARG1, INIT_ARG2];
        assert(frame@ =~= init_frame());
        match self.i2c.write(ADDR, &frame) {
            Ok(_) => {
                self.i2c.wait(delay, SETTLE_MS);
                let mut buffer: [u8; 6] = [0; 6];
                let result = self.i2c.read(ADDR, &mut buffer);
                proof {
                    let read = Event::Read { address: ADDR, buffer: buffer@, result };
                    assert(self.trace() =~= old(self).trace().push(Event::Wait { ms: POWER_ON_MS })
                        + exchange(init_frame(), read));
                }
                decode_status(result, &buffer)
            },
            Err(_) => Err(Error::Transport),
        }
    }

    /// Runs one measurement cycle.
    ///
    /// Sends the measure command. If the transport refuses the write,
    /// that is the end. Otherwise the settling time is waited out and the
    /// response is read; the result is what `measurement_reply` makes of
    /// that read. Whatever happens, the handle can be used again.
    pub fn measure<D: Delay>(&mut self, delay: &mut D) -> (res: Result<AhtData, Error>)
        ensures
            match final(self).trace().last() {
                Event::Read { address, buffer, result } => {
                    let read = final(self).trace().last();
                    &&& final(self).trace() == old(self).trace() + exchange(measure_frame(), read)
                    &&& is_response(read)
                    &&& res == measurement_reply(result, buffer)
                },
                _ => {
                    &&& final(self).trace() == old(self).trace().push(sent(measure_frame(), false))
                    &&& res == Err::<AhtData, Error>(Error::Transport)
                },
            },
            res matches Ok(data) ==> data.wf(),
    {
        let frame: [u8; 3] = [CMD_MEASURE, MEASURE_ARG1, MEASURE_ARG2];
        assert(frame@ =~= measure_frame());
        match self.i2c.write(ADDR, &frame) {
            Ok(_) => {
                self.i2c.wait(delay, SETTLE_MS);
                let mut buffer: [u8; 6] = [0; 6];
                let result = self.i2c.read(ADDR, &mut buffer);
                proof {
                    let read = Event::Read { address: ADDR, buffer: buffer@, result };
                    assert(self.trace() =~= old(self).trace() + exchange(measure_frame(), read));
                }
                decode_measurement(result, &buffer)
            },
            Err(_) => Err(Error::Transport),
        }
    }

    /// Gives the transport back.
    pub fn free(self) -> (i2c: I2C)
        ensures
            i2c == self.bus(),
    {
        self.i2c.into_inner()
    }
}

} // verus!
