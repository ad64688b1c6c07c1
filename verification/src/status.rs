use vstd::prelude::*;

verus! {

/// Operating mode that the sensor reports in bits 5 and 6 of its status byte.
#[derive(Clone, Copy, Debug, PartialEq, Eq, Structural)]
pub enum Mode {
    /// Normal mode: both bits clear.
    Nor,
    /// Cyclic mode: bit 5 set, bit 6 clear.
    Cyc,
    /// Command mode: bit 6 set.
    Cmd,
}

/// The flags carried by one status byte.
#[derive(Clone, Copy, Debug, PartialEq, Eq, Structural)]
pub struct AhtStatus {
    /// The sensor is still converting (bit 7).
    pub busy: bool,
    /// Operating mode (bits 5 and 6).
    pub mode: Mode,
    /// The sensor holds a calibration (bit 3).
    pub cal: bool,
}

/// The mode that a status byte encodes: its bits 5 and 6, read as a number
/// from 0 to 3, select normal (0), cyclic (1) or command (2 and 3).
pub open spec fn mode_of(byte: u8) -> Mode {
    let field = (byte as int / 32) % 4;
    if field == 0 {
        Mode::Nor
    } else if field == 1 {
        Mode::Cyc
    } else {
        Mode::Cmd
    }
}

/// The status that a byte encodes.
pub open spec fn status_of(byte: u8) -> AhtStatus {
    AhtStatus { busy: byte > 0x7F, mode: mode_of(byte), cal: (byte as int / 8) % 2 == 1 }
}

impl AhtStatus {
    /// Decodes a status byte. Every byte is a valid status.
    pub fn from_byte(byte: u8) -> (status: Self)
        ensures
            status == status_of(byte),
            status.busy == (byte > 0x7F),
            status.cal == (byte & 0x08 == 0x08),
            status.mode == match byte & 0b0110_0000 {
                0x00 => Mode::Nor,
                0x20 => Mode::Cyc,
                _ => Mode::Cmd,
            },
    {
        let field: u8 = byte & 0b0110_0000;
        let flag: u8 = byte & 0x08;
        proof {
            assert(field == ((byte / 32) % 4) * 32) by (bit_vector)
                requires
                    field == byte & 0b0110_0000,
            ;
            assert((flag == 0x08) == ((byte / 8) % 2 == 1)) by (bit_vector)
                requires
                    flag == byte & 0x08,
            ;
        }
        AhtStatus {
            busy: byte > 0x7F,
            mode: match field {
                0x00 => Mode::Nor,
                0x20 => Mode::Cyc,
                _ => Mode::Cmd,
            },
            cal: flag == 0x08,
        }
    }
}

} // verus!
