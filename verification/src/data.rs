use vstd::prelude::*;

verus! {

/// Number of steps in the sensor's 20-bit scale, `2^20`. A count of
/// `FULL_SCALE` would stand for 100 percent relative humidity, or for 150
/// degrees Celsius; the largest count that the sensor can report is one less.
pub const FULL_SCALE: u32 = 0x10_0000;

/// One measurement, as the two 20-bit counts that the sensor reports.
///
/// A count `n` stands for `n / 2^20` of the full range. Relative humidity
/// runs from 0 to 100 percent, temperature from -50 to 150 degrees Celsius.
#[derive(Clone, Copy, Debug, PartialEq, Eq, Structural)]
pub struct AhtData {
    /// Raw temperature count.
    pub temp: u32,
    /// Raw humidity count.
    pub hum: u32,
}

/// The humidity count in a data frame: the first two bytes and the high
/// nibble of the third, most significant first.
pub open spec fn hum_count(frame: Seq<u8>) -> int
    recommends
        frame.len() == 5,
{
    frame[0] * 4096 + frame[1] * 16 + frame[2] / 16
}

/// The temperature count in a data frame: the low nibble of the third byte
/// and the last two bytes, most significant first.
pub open spec fn temp_count(frame: Seq<u8>) -> int
    recommends
        frame.len() == 5,
{
    (frame[2] % 16) * 65536 + frame[3] * 256 + frame[4]
}

/// The measurement in a data frame of five bytes.
pub open spec fn data_of(frame: Seq<u8>) -> AhtData
    recommends
        frame.len() == 5,
{
    AhtData { temp: temp_count(frame) as u32, hum: hum_count(frame) as u32 }
}

impl AhtData {
    /// Both counts fit in 20 bits.
    pub open spec fn wf(self) -> bool {
        self.hum < FULL_SCALE && self.temp < FULL_SCALE
    }

    /// Unpacks the five data bytes that follow the status byte.
    ///
    /// The humidity count is the top 20 bits of the frame, the temperature
    /// count the bottom 20 bits.
    pub fn from_bytes(bytes: [u8; 5]) -> (data: Self)
        ensures
            data == data_of(bytes@),
            data.hum == hum_count(bytes@),
            data.temp == temp_count(bytes@),
            data.hum == ((bytes[0] as u32) << 12) | ((bytes[1] as u32) << 4) | ((bytes[2] as u32)
                >> 4),
            data.temp == (((bytes[2] as u32) & 0x0F) << 16) | ((bytes[3] as u32) << 8) | (
            bytes[4] as u32),
            data.wf(),
    {
        let b0: u32 = bytes[0] as u32;
        let b1: u32 = bytes[1] as u32;
        let b2: u32 = bytes[2] as u32;
        let b3: u32 = bytes[3] as u32;
        let b4: u32 = bytes[4] as u32;
        let hum: u32 = (b0 << 12) | (b1 << 4) | (b2 >> 4);
        let temp: u32 = ((b2 & 0x0F) << 16) | (b3 << 8) | b4;
        proof {
            assert(hum == b0 * 4096 + b1 * 16 + b2 / 16) by (bit_vector)
                requires
                    b0 < 256,
                    b1 < 256,
                    b2 < 256,
                    hum == (b0 << 12) | (b1 << 4) | (b2 >> 4),
            ;
            assert(temp == (b2 % 16) * 65536 + b3 * 256 + b4) by (bit_vector)
                requires
                    b2 < 256,
                    b3 < 256,
                    b4 < 256,
                    temp == ((b2 & 0x0F) << 16) | (b3 << 8) | b4,
            ;
        }
        AhtData { temp, hum }
    }

    /// Relative humidity in percent as a fixed-point number with 20
    /// fractional bits, that is `count / 2^20 * 100` without the division.
    /// A well-formed measurement lies in `[0, 100)` percent.
    pub fn humidity_q20(&self) -> (q: u64)
        ensures
            q == self.hum * 100,
            self.wf() ==> q < 100 * FULL_SCALE,
    {
        self.hum as u64 * 100
    }

    /// Temperature in degrees Celsius as a fixed-point number with 20
    /// fractional bits, that is `count / 2^20 * 200 - 50` without the
    /// division. A well-formed measurement lies in `[-50, 150)` degrees.
    pub fn temperature_q20(&self) -> (q: i64)
        ensures
            q == self.temp * 200 - 50 * FULL_SCALE,
            self.wf() ==> -50 * FULL_SCALE <= q < 150 * FULL_SCALE,
    {
        self.temp as i64 * 200 - 50 * (FULL_SCALE as i64)
    }
}

} // verus!
