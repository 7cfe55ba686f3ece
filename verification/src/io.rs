//! The serial port registers, the only I/O the core exposes besides timer,
//! interrupt and PPU registers. Writing 0x81 to the control register is the
//! debug tap test ROMs use to emit one character.
use vstd::prelude::*;

verus! {

#[derive(Clone, Copy, Debug, PartialEq, Eq, Structural)]
pub struct Serial {
    /// Transfer data, at 0xFF01.
    pub data: u8,
    /// Transfer control, at 0xFF02.
    pub control: u8,
}

impl Serial {
    pub fn create() -> (r: Serial)
        ensures
            r.data == 0,
            r.control == 0,
    {
        Serial { data: 0, control: 0 }
    }
}

#[derive(Clone, Copy, Debug, PartialEq, Eq, Structural)]
pub struct IO {
    pub serial: Serial,
}

/// What software reads from the plain I/O range: the two serial registers;
/// every other address in it reads zero.
pub open spec fn io_read_spec(io: IO, address: u16) -> u8 {
    if address == 0xFF01 {
        io.serial.data
    } else if address == 0xFF02 {
        io.serial.control
    } else {
        0u8
    }
}

/// The I/O block after a write: the two serial registers write through;
/// everything else is dropped.
pub open spec fn io_write_spec(io: IO, address: u16, value: u8) -> IO {
    if address == 0xFF01 {
        IO { serial: Serial { data: value, ..io.serial } }
    } else if address == 0xFF02 {
        IO { serial: Serial { control: value, ..io.serial } }
    } else {
        io
    }
}

impl IO {
    pub fn create() -> (r: IO)
        ensures
            r.serial.data == 0,
            r.serial.control == 0,
    {
        IO { serial: Serial::create() }
    }

    pub fn read(&self, address: u16) -> (r: u8)
        ensures
            r == io_read_spec(*self, address),
    {
        if address == 0xFF01 {
            self.serial.data
        } else if address == 0xFF02 {
            self.serial.control
        } else {
            0
        }
    }

    pub fn write(&mut self, address: u16, value: u8)
        ensures
            *final(self) == io_write_spec(*old(self), address, value),
    {
        if address == 0xFF01 {
            self.serial.data = value;
        } else if address == 0xFF02 {
            self.serial.control = value;
        }
    }
}

} // verus!
