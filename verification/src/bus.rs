use vstd::prelude::*;

verus! {

/// The transport could not complete a transaction: no acknowledgment, a bus
/// error, or whatever else the transport counts as failure.
#[derive(Clone, Copy, Debug, PartialEq, Eq, Structural)]
pub struct TransportError;

/// A byte-oriented two-wire bus.
///
/// Nothing is assumed of a transport: it may fail any transaction, deliver
/// fewer bytes than the buffer holds, and leave anything in the buffer.
pub trait Transport {
    /// Sends `bytes` to the device at `address`.
    fn write(&mut self, address: u8, bytes: &[u8]) -> Result<(), TransportError>;

    /// Reads from the device at `address` into `buffer` and reports how
    /// many bytes arrived.
    fn read(&mut self, address: u8, buffer: &mut [u8]) -> Result<usize, TransportError>;
}

/// A blocking delay.
pub trait Delay {
    /// Blocks the caller for at least `ms` milliseconds.
    fn delay_ms(&mut self, ms: u16);
}

/// One step taken on behalf of the sensor, as a trace records it.
pub ghost enum Event {
    /// A wait of `ms` milliseconds.
    Wait { ms: u16 },
    /// A write of `bytes` to the device at `address`; `ok` tells whether
    /// the transport reported success.
    Write { address: u8, bytes: Seq<u8>, ok: bool },
    /// A read from the device at `address`. `buffer` is what the buffer
    /// held when the transport returned, `result` what the transport
    /// reported: the number of bytes that arrived, or a failure.
    Read { address: u8, buffer: Seq<u8>, result: Result<usize, TransportError> },
}

/// A transport together with the trace of what was done through it.
///
/// The trace is ghost state. The transport inside can be reached through
/// `write` and `read` alone, and each of them records the one transaction
/// that it performs, with its arguments and with what came back. `wait`
/// records the wait that it performs. So a contract over the trace is a
/// contract over the calls that were made, in the order in which they were
/// made: the trace holds every transaction that reached the transport, and
/// every wait in it has taken place.
pub struct Traced<I2C> {
    inner: I2C,
    trace: Ghost<Seq<Event>>,
}

impl<I2C: Transport> Traced<I2C> {
    /// The transport inside.
    pub closed spec fn inner(self) -> I2C {
        self.inner
    }

    /// The steps taken so far, oldest first.
    pub closed spec fn trace(self) -> Seq<Event> {
        self.trace@
    }

    /// Wraps a transport; nothing has been done through it yet.
    pub fn new(inner: I2C) -> (traced: Self)
        ensures
            traced.inner() == inner,
            traced.trace() == Seq::<Event>::empty(),
    {
        Traced { inner, trace: Ghost(Seq::empty()) }
    }

    /// Gives the transport back.
    pub fn into_inner(self) -> (inner: I2C)
        ensures
            inner == self.inner(),
    {
        self.inner
    }

    /// Waits on `delay` and records the wait.
    pub fn wait<D: Delay>(&mut self, delay: &mut D, ms: u16)
        ensures
            final(self).trace() == old(self).trace().push(Event::Wait { ms }),
            final(self).inner() == old(self).inner(),
    {
        delay.delay_ms(ms);
        self.trace = Ghost(self.trace@.push(Event::Wait { ms }));
    }

    /// Writes to the transport and records the write with its outcome.
    pub fn write(&mut self, address: u8, bytes: &[u8]) -> (res: Result<(), TransportError>)
        ensures
            final(self).trace() == old(self).trace().push(
                Event::Write { address, bytes: bytes@, ok: res is Ok },
            ),
    {
        let res = self.inner.write(address, bytes);
        self.trace = Ghost(self.trace@.push(Event::Write { address, bytes: bytes@, ok: res is Ok }));
        res
    }

    /// Reads from the transport and records the read with what came back.
    pub fn read<const N: usize>(&mut self, address: u8, buffer: &mut [u8; N]) -> (res: Result<
        usize,
        TransportError,
    >)
        ensures
            final(self).trace() == old(self).trace().push(
                Event::Read { address, buffer: final(buffer)@, result: res },
            ),
    {
        let res = self.inner.read(address, buffer);
        self.trace = Ghost(self.trace@.push(Event::Read { address, buffer: buffer@, result: res }));
        res
    }
}

} // verus!
