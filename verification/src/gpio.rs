//! The optional on-cartridge General-Purpose I/O port: a three-register
//! file (data, direction, control) aliased into the ROM address window.

use vstd::prelude::*;

verus! {

/// Offset of the data register within the ROM window's low 25 bits.
pub const GPIO_PORT_DATA: u32 = 0xC4;

/// Offset of the direction register.
pub const GPIO_PORT_DIRECTION: u32 = 0xC6;

/// Offset of the control register.
pub const GPIO_PORT_CONTROL: u32 = 0xC8;

/// The register file of the cartridge's GPIO port. The four pin bits of
/// data and direction and the single control bit are stored; the rest of a
/// written half-word is discarded.
#[derive(Clone, Copy, Debug, PartialEq, Eq, Structural)]
pub struct Gpio {
    pub data: u16,
    pub direction: u16,
    pub control: u16,
}

impl Gpio {
    pub fn new() -> (r: Gpio)
        ensures
            r.data == 0,
            r.direction == 0,
            r.control == 0,
    {
        Gpio { data: 0, direction: 0, control: 0 }
    }

    /// Reads are allowed to the guest only while the control bit is set;
    /// the register value is produced either way.
    pub open spec fn spec_is_readable(self) -> bool {
        self.control == 1
    }

    pub fn is_readable(&self) -> (r: bool)
        ensures
            r == self.spec_is_readable(),
    {
        self.control == 1
    }

    /// The register selected by an offset within the ROM window.
    pub open spec fn spec_read(self, offset: u32) -> u16 {
        if offset == GPIO_PORT_DATA {
            self.data
        } else if offset == GPIO_PORT_DIRECTION {
            self.direction
        } else if offset == GPIO_PORT_CONTROL {
            self.control
        } else {
            0
        }
    }

    pub fn read(&self, offset: u32) -> (r: u16)
        ensures
            r == self.spec_read(offset),
    {
        if offset == GPIO_PORT_DATA {
            self.data
        } else if offset == GPIO_PORT_DIRECTION {
            self.direction
        } else if offset == GPIO_PORT_CONTROL {
            self.control
        } else {
            0
        }
    }

    /// The port after a half-word write to one of its registers: data and
    /// direction keep their four pin bits, control its single bit.
    pub open spec fn spec_write(self, offset: u32, value: u16) -> Gpio {
        if offset == GPIO_PORT_DATA {
            Gpio { data: value & 0xF, ..self }
        } else if offset == GPIO_PORT_DIRECTION {
            Gpio { direction: value & 0xF, ..self }
        } else if offset == GPIO_PORT_CONTROL {
            Gpio { control: value & 0x1, ..self }
        } else {
            self
        }
    }

    pub fn write(&mut self, offset: u32, value: u16)
        ensures
            *final(self) == old(self).spec_write(offset, value),
    {
        if offset == GPIO_PORT_DATA {
            self.data = value & 0xF;
        } else if offset == GPIO_PORT_DIRECTION {
            self.direction = value & 0xF;
        } else if offset == GPIO_PORT_CONTROL {
            self.control = value & 0x1;
        }
    }
}

} // verus!
