//! Battery-backed save media behind the gamepak's SRAM window: a flat SRAM
//! buffer, a command-driven Flash chip, and a serially clocked EEPROM.

use vstd::prelude::*;

verus! {

/// The backup technology a cartridge was built with (or detected to carry).
#[derive(Clone, Copy, Debug, PartialEq, Eq, Structural)]
pub enum BackupType {
    Eeprom,
    Sram,
    Flash,
    Flash512,
    Flash1M,
}

pub const SRAM_SIZE: usize = 0x8000;

pub const FLASH_SMALL_SIZE: usize = 0x10000;

pub const FLASH_LARGE_SIZE: usize = 0x20000;

pub const FLASH_SMALL_MFR_ID: u8 = 0x32;

pub const FLASH_SMALL_DEV_ID: u8 = 0x1B;

pub const FLASH_LARGE_MFR_ID: u8 = 0x62;

pub const FLASH_LARGE_DEV_ID: u8 = 0x13;

pub const EEPROM_SMALL_SIZE: usize = 512;

pub const EEPROM_LARGE_SIZE: usize = 0x2000;

/// Progress through the Flash command handshake. The two magic writes
/// (`0xAA` to `0x5555`, `0x55` to `0x2AAA`) precede every command byte;
/// a few commands arm a one-shot follow-up write.
#[derive(Clone, Copy, Debug, PartialEq, Eq, Structural)]
pub enum FlashMode {
    Idle,
    FirstMagicSeen,
    AwaitingCommand,
    WriteByte,
    SelectBank,
}

/// Mathematical model of the Flash chip.
#[verifier::ext_equal]
pub ghost struct FlashView {
    pub mode: FlashMode,
    pub erase_armed: bool,
    pub chip_id_mode: bool,
    pub bank: int,
    pub bytes: Seq<u8>,
}

impl FlashView {
    pub open spec fn wf(self) -> bool {
        &&& self.bytes.len() == FLASH_SMALL_SIZE || self.bytes.len() == FLASH_LARGE_SIZE
        &&& self.bank == 0 || self.bank == 1
        &&& self.bytes.len() == FLASH_SMALL_SIZE ==> self.bank == 0
        &&& self.mode == FlashMode::SelectBank ==> self.is_large()
    }

    pub open spec fn is_large(self) -> bool {
        self.bytes.len() == FLASH_LARGE_SIZE
    }

    /// Byte offset a banked access lands on.
    pub open spec fn offset_of(self, addr: u32) -> int {
        self.bank * 0x10000 + (addr & 0xFFFF)
    }

    /// What a read of the SRAM window returns: the chip identifier while
    /// identification mode is on, else the byte of the active bank.
    pub open spec fn read_of(self, addr: u32) -> u8 {
        if self.chip_id_mode && addr & 0xFFFF == 0 {
            if self.is_large() {
                FLASH_LARGE_MFR_ID
            } else {
                FLASH_SMALL_MFR_ID
            }
        } else if self.chip_id_mode && addr & 0xFFFF == 1 {
            if self.is_large() {
                FLASH_LARGE_DEV_ID
            } else {
                FLASH_SMALL_DEV_ID
            }
        } else {
            self.bytes[self.offset_of(addr)]
        }
    }

    /// The chip after one write to the SRAM window, as a function of the
    /// state before it. Writes to `0x5555`/`0x2AAA` drive the command
    /// handshake; an unrecognised sequence resets the machine to idle.
    pub open spec fn write_step(self, addr: u32, value: u8) -> FlashView {
        let off = addr & 0xFFFF;
        match self.mode {
            FlashMode::Idle => {
                if off == 0x5555 && value == 0xAA {
                    FlashView { mode: FlashMode::FirstMagicSeen, ..self }
                } else {
                    self
                }
            },
            FlashMode::FirstMagicSeen => {
                if off == 0x2AAA && value == 0x55 {
                    FlashView { mode: FlashMode::AwaitingCommand, ..self }
                } else {
                    FlashView { mode: FlashMode::Idle, ..self }
                }
            },
            FlashMode::AwaitingCommand => self.command_step(off, value),
            FlashMode::WriteByte => FlashView {
                mode: FlashMode::Idle,
                bytes: self.bytes.update(self.offset_of(addr), value),
                ..self
            },
            FlashMode::SelectBank => {
                if off == 0 {
                    FlashView { mode: FlashMode::Idle, bank: (value & 1) as int, ..self }
                } else {
                    FlashView { mode: FlashMode::Idle, ..self }
                }
            },
        }
    }

    /// Interpretation of the command byte that follows the two magic writes.
    pub open spec fn command_step(self, off: u32, value: u8) -> FlashView {
        if self.erase_armed && off == 0x5555 && value == 0x10 {
            // chip erase
            FlashView {
                mode: FlashMode::Idle,
                erase_armed: false,
                bytes: Seq::<u8>::new(self.bytes.len(), |i: int| 0xFFu8),
                ..self
            }
        } else if self.erase_armed && value == 0x30 {
            // erase the 4 KiB sector holding the written offset
            FlashView {
                mode: FlashMode::Idle,
                erase_armed: false,
                bytes: Seq::<u8>::new(
                    self.bytes.len(),
                    |i: int|
                        if self.bank * 0x10000 + (off & 0xF000) <= i < self.bank * 0x10000 + (off
                            & 0xF000) + 0x1000 {
                            0xFFu8
                        } else {
                            self.bytes[i]
                        },
                ),
                ..self
            }
        } else if off == 0x5555 && value == 0x90 {
            FlashView { mode: FlashMode::Idle, chip_id_mode: true, ..self }
        } else if off == 0x5555 && value == 0xF0 {
            FlashView { mode: FlashMode::Idle, chip_id_mode: false, ..self }
        } else if off == 0x5555 && value == 0x80 {
            FlashView { mode: FlashMode::Idle, erase_armed: true, ..self }
        } else if off == 0x5555 && value == 0xA0 {
            FlashView { mode: FlashMode::WriteByte, erase_armed: false, ..self }
        } else if off == 0x5555 && value == 0xB0 && self.is_large() {
            FlashView { mode: FlashMode::SelectBank, erase_armed: false, ..self }
        } else {
            FlashView { mode: FlashMode::Idle, erase_armed: false, ..self }
        }
    }
}

/// A banked, command-driven Flash chip of 64 KiB or 128 KiB.
#[derive(Clone, Debug)]
pub struct Flash {
    pub mode: FlashMode,
    /// A chip-erase or sector-erase command byte is accepted only after the
    /// erase command armed it.
    pub erase_armed: bool,
    /// While set, reads of offsets 0 and 1 return the chip identifier.
    pub chip_id_mode: bool,
    pub bank: usize,
    pub bytes: Vec<u8>,
}

impl View for Flash {
    type V = FlashView;

    open spec fn view(&self) -> FlashView {
        FlashView {
            mode: self.mode,
            erase_armed: self.erase_armed,
            chip_id_mode: self.chip_id_mode,
            bank: self.bank as int,
            bytes: self.bytes@,
        }
    }
}

impl Flash {
    pub fn new(size: usize) -> (r: Flash)
        requires
            size == FLASH_SMALL_SIZE || size == FLASH_LARGE_SIZE,
        ensures
            r@.wf(),
            r@.bytes =~= Seq::<u8>::new(size as nat, |i: int| 0xFFu8),
            r@.mode == FlashMode::Idle,
            !r@.erase_armed,
            !r@.chip_id_mode,
            r@.bank == 0,
    {
        let mut bytes: Vec<u8> = Vec::new();
        let mut i: usize = 0;
        while i < size
            invariant
                i <= size,
                bytes@ =~= Seq::<u8>::new(i as nat, |j: int| 0xFFu8),
            decreases size - i,
        {
            bytes.push(0xFF);
            i = i + 1;
        }
        Flash { mode: FlashMode::Idle, erase_armed: false, chip_id_mode: false, bank: 0, bytes }
    }

    pub fn from_bytes(bytes: Vec<u8>) -> (r: Flash)
        requires
            bytes.len() == FLASH_SMALL_SIZE || bytes.len() == FLASH_LARGE_SIZE,
        ensures
            r@.wf(),
            r@.bytes == bytes@,
            r@.mode == FlashMode::Idle,
            !r@.erase_armed,
            !r@.chip_id_mode,
            r@.bank == 0,
    {
        Flash { mode: FlashMode::Idle, erase_armed: false, chip_id_mode: false, bank: 0, bytes }
    }

    pub fn read(&self, addr: u32) -> (r: u8)
        requires
            self@.wf(),
        ensures
            r == self@.read_of(addr),
    {
        let off: u32 = addr & 0xFFFF;
        proof {
            assert(addr & 0xFFFF < 0x10000) by (bit_vector);
        }
        if self.chip_id_mode && off == 0 {
            if self.bytes.len() == FLASH_LARGE_SIZE {
                FLASH_LARGE_MFR_ID
            } else {
                FLASH_SMALL_MFR_ID
            }
        } else if self.chip_id_mode && off == 1 {
            if self.bytes.len() == FLASH_LARGE_SIZE {
                FLASH_LARGE_DEV_ID
            } else {
                FLASH_SMALL_DEV_ID
            }
        } else {
            self.bytes[self.bank * 0x10000 + off as usize]
        }
    }

    pub fn write(&mut self, addr: u32, value: u8)
        requires
            old(self)@.wf(),
        ensures
            final(self)@.wf(),
            final(self)@ =~= old(self)@.write_step(addr, value),
    {
        let off: u32 = addr & 0xFFFF;
        proof {
            assert(addr & 0xFFFF < 0x10000) by (bit_vector);
        }
        match self.mode {
            FlashMode::Idle => {
                if off == 0x5555 && value == 0xAA {
                    self.mode = FlashMode::FirstMagicSeen;
                }
            },
            FlashMode::FirstMagicSeen => {
                if off == 0x2AAA && value == 0x55 {
                    self.mode = FlashMode::AwaitingCommand;
                } else {
                    self.mode = FlashMode::Idle;
                }
            },
            FlashMode::AwaitingCommand => {
                self.command(off, value);
            },
            FlashMode::WriteByte => {
                let idx: usize = self.bank * 0x10000 + off as usize;
                self.bytes.set(idx, value);
                self.mode = FlashMode::Idle;
            },
            FlashMode::SelectBank => {
                if off == 0 {
                    proof {
                        assert(value & 1 == 0 || value & 1 == 1) by (bit_vector);
                    }
                    self.bank = (value & 1) as usize;
                }
                self.mode = FlashMode::Idle;
            },
        }
    }

    fn command(&mut self, off: u32, value: u8)
        requires
            old(self)@.wf(),
            old(self)@.mode == FlashMode::AwaitingCommand,
            off < 0x10000,
        ensures
            final(self)@.wf(),
            final(self)@ =~= old(self)@.command_step(off, value),
    {
        proof {
            assert(off < 0x10000 ==> off & 0xF000 <= 0xF000) by (bit_vector);
        }
        if self.erase_armed && off == 0x5555 && value == 0x10 {
            let len: usize = self.bytes.len();
            let mut i: usize = 0;
            while i < len
                invariant
                    i <= len,
                    self.bytes.len() == len,
                    self.mode == old(self).mode,
                    self.erase_armed == old(self).erase_armed,
                    self.chip_id_mode == old(self).chip_id_mode,
                    self.bank == old(self).bank,
                    forall|j: int| 0 <= j < i ==> self.bytes@[j] == 0xFFu8,
                    forall|j: int| i <= j < len ==> self.bytes@[j] == old(self).bytes@[j],
                decreases len - i,
            {
                self.bytes.set(i, 0xFF);
                i = i + 1;
            }
            self.mode = FlashMode::Idle;
            self.erase_armed = false;
        } else if self.erase_armed && value == 0x30 {
            let base: usize = self.bank * 0x10000 + (off & 0xF000) as usize;
            let mut i: usize = 0;
            while i < 0x1000
                invariant
                    i <= 0x1000,
                    self.bytes.len() == old(self).bytes.len(),
                    base == old(self).bank * 0x10000 + (off & 0xF000),
                    base + 0x1000 <= self.bytes.len(),
                    self.mode == old(self).mode,
                    self.erase_armed == old(self).erase_armed,
                    self.chip_id_mode == old(self).chip_id_mode,
                    self.bank == old(self).bank,
                    forall|j: int| base <= j < base + i ==> self.bytes@[j] == 0xFFu8,
                    forall|j: int|
                        0 <= j < self.bytes.len() && !(base <= j < base + i) ==> self.bytes@[j]
                            == old(self).bytes@[j],
                decreases 0x1000 - i,
            {
                self.bytes.set(base + i, 0xFF);
                i = i + 1;
            }
            self.mode = FlashMode::Idle;
            self.erase_armed = false;
        } else if off == 0x5555 && value == 0x90 {
            self.mode = FlashMode::Idle;
            self.chip_id_mode = true;
        } else if off == 0x5555 && value == 0xF0 {
            self.mode = FlashMode::Idle;
            self.chip_id_mode = false;
        } else if off == 0x5555 && value == 0x80 {
            self.mode = FlashMode::Idle;
            self.erase_armed = true;
        } else if off == 0x5555 && value == 0xA0 {
            self.mode = FlashMode::WriteByte;
            self.erase_armed = false;
        } else if off == 0x5555 && value == 0xB0 && self.bytes.len() == FLASH_LARGE_SIZE {
            self.mode = FlashMode::SelectBank;
            self.erase_armed = false;
        } else {
            self.mode = FlashMode::Idle;
            self.erase_armed = false;
        }
    }
}

/// Where the EEPROM serial controller stands in a transaction.
#[derive(Clone, Copy, Debug, PartialEq, Eq, Structural)]
pub enum EepromPhase {
    /// Waiting for a start bit.
    Idle,
    /// Start bit seen; the next bit picks read or write.
    GotStartBit,
    /// Collecting the 6- or 14-bit block address, most significant bit
    /// first.
    RxAddress,
    /// Collecting the 64 payload bits of a write command.
    RxData,
    /// Read address complete; one more clock ends the command.
    AwaitReadStop,
    /// Transmitting 4 dummy bits and then 64 data bits.
    TxData,
}

/// Mathematical model of the EEPROM controller.
#[verifier::ext_equal]
pub ghost struct EepromView {
    pub phase: EepromPhase,
    pub is_write: bool,
    pub bit_count: int,
    pub bit_buffer: u64,
    pub block: int,
    pub tx_index: int,
    pub tx_data: u64,
    pub address_width: int,
    pub mem: Seq<u8>,
}

/// Byte `j` (0 is most significant) of a 64-bit shift-register value.
pub open spec fn spec_buffer_byte(buf: u64, j: int) -> u8 {
    if j == 0 {
        (buf >> 56u64) as u8
    } else if j == 1 {
        (buf >> 48u64) as u8
    } else if j == 2 {
        (buf >> 40u64) as u8
    } else if j == 3 {
        (buf >> 32u64) as u8
    } else if j == 4 {
        (buf >> 24u64) as u8
    } else if j == 5 {
        (buf >> 16u64) as u8
    } else if j == 6 {
        (buf >> 8u64) as u8
    } else {
        buf as u8
    }
}

/// The 8-byte block starting at `block * 8`, packed most significant byte
/// first.
pub open spec fn spec_block_word(mem: Seq<u8>, block: int) -> u64 {
    ((mem[block * 8] as u64) << 56) | ((mem[block * 8 + 1] as u64) << 48) | ((mem[block * 8
        + 2] as u64) << 40) | ((mem[block * 8 + 3] as u64) << 32) | ((mem[block * 8
        + 4] as u64) << 24) | ((mem[block * 8 + 5] as u64) << 16) | ((mem[block * 8
        + 6] as u64) << 8) | (mem[block * 8 + 7] as u64)
}

/// The memory after a write command commits its 64 payload bits to a block.
pub open spec fn spec_commit_mem(mem: Seq<u8>, block: int, buf: u64) -> Seq<u8> {
    mem.update(block * 8, spec_buffer_byte(buf, 0)).update(
        block * 8 + 1,
        spec_buffer_byte(buf, 1),
    ).update(block * 8 + 2, spec_buffer_byte(buf, 2)).update(
        block * 8 + 3,
        spec_buffer_byte(buf, 3),
    ).update(block * 8 + 4, spec_buffer_byte(buf, 4)).update(
        block * 8 + 5,
        spec_buffer_byte(buf, 5),
    ).update(block * 8 + 6, spec_buffer_byte(buf, 6)).update(
        block * 8 + 7,
        spec_buffer_byte(buf, 7),
    )
}

impl EepromView {
    pub open spec fn blocks(self) -> int {
        self.mem.len() as int / 8
    }

    pub open spec fn wf(self) -> bool {
        &&& self.mem.len() == EEPROM_SMALL_SIZE || self.mem.len() == EEPROM_LARGE_SIZE
        &&& self.address_width == if self.mem.len() == EEPROM_SMALL_SIZE {
            6int
        } else {
            14int
        }
        &&& 0 <= self.block < self.blocks()
        &&& 0 <= self.bit_count
        &&& self.phase == EepromPhase::RxAddress ==> self.bit_count < self.address_width
        &&& self.phase == EepromPhase::RxData ==> self.bit_count < 64
        &&& 0 <= self.tx_index < 68
    }

    /// The controller after one serial-in clock carrying `bit`.
    pub open spec fn write_bit_step(self, bit: bool) -> EepromView {
        match self.phase {
            EepromPhase::Idle => {
                if bit {
                    EepromView { phase: EepromPhase::GotStartBit, ..self }
                } else {
                    self
                }
            },
            EepromPhase::GotStartBit => EepromView {
                phase: EepromPhase::RxAddress,
                is_write: bit,
                bit_count: 0,
                bit_buffer: 0,
                ..self
            },
            EepromPhase::RxAddress => {
                let buf = ((self.bit_buffer << 1) | (if bit {
                    1u64
                } else {
                    0u64
                }));
                if self.bit_count + 1 == self.address_width {
                    if self.is_write {
                        EepromView {
                            phase: EepromPhase::RxData,
                            block: buf as int % self.blocks(),
                            bit_count: 0,
                            bit_buffer: 0,
                            ..self
                        }
                    } else {
                        EepromView {
                            phase: EepromPhase::AwaitReadStop,
                            block: buf as int % self.blocks(),
                            bit_count: 0,
                            bit_buffer: 0,
                            ..self
                        }
                    }
                } else {
                    EepromView { bit_count: self.bit_count + 1, bit_buffer: buf, ..self }
                }
            },
            EepromPhase::RxData => {
                let buf = ((self.bit_buffer << 1) | (if bit {
                    1u64
                } else {
                    0u64
                }));
                if self.bit_count + 1 == 64 {
                    EepromView {
                        phase: EepromPhase::Idle,
                        bit_count: 0,
                        bit_buffer: 0,
                        mem: spec_commit_mem(self.mem, self.block, buf),
                        ..self
                    }
                } else {
                    EepromView { bit_count: self.bit_count + 1, bit_buffer: buf, ..self }
                }
            },
            EepromPhase::AwaitReadStop => EepromView {
                phase: EepromPhase::TxData,
                tx_index: 0,
                tx_data: spec_block_word(self.mem, self.block),
                ..self
            },
            EepromPhase::TxData => {
                // a write aborts the transmission and may start a command
                if bit {
                    EepromView { phase: EepromPhase::GotStartBit, tx_index: 0, ..self }
                } else {
                    EepromView { phase: EepromPhase::Idle, tx_index: 0, ..self }
                }
            },
        }
    }

    /// The bit a serial-out clock returns: 4 dummy zeroes, then the 64 data
    /// bits most significant first; a ready signal of 1 outside a read.
    pub open spec fn read_bit_of(self) -> u16 {
        if self.phase == EepromPhase::TxData {
            if self.tx_index < 4 {
                0u16
            } else {
                ((self.tx_data >> (67 - self.tx_index)) & 1) as u16
            }
        } else {
            1u16
        }
    }

    /// The controller after one serial-out clock.
    pub open spec fn read_bit_step(self) -> EepromView {
        if self.phase == EepromPhase::TxData {
            if self.tx_index + 1 == 68 {
                EepromView { phase: EepromPhase::Idle, tx_index: 0, ..self }
            } else {
                EepromView { tx_index: self.tx_index + 1, ..self }
            }
        } else {
            self
        }
    }
}

/// The EEPROM serial controller: a save chip clocked one bit per 16-bit
/// access to the gamepak's last page.
#[derive(Clone, Debug)]
pub struct EepromController {
    pub phase: EepromPhase,
    pub is_write: bool,
    pub bit_count: usize,
    pub bit_buffer: u64,
    pub block: usize,
    pub tx_index: usize,
    pub tx_data: u64,
    pub address_width: usize,
    pub mem: Vec<u8>,
}

impl View for EepromController {
    type V = EepromView;

    open spec fn view(&self) -> EepromView {
        EepromView {
            phase: self.phase,
            is_write: self.is_write,
            bit_count: self.bit_count as int,
            bit_buffer: self.bit_buffer,
            block: self.block as int,
            tx_index: self.tx_index as int,
            tx_data: self.tx_data,
            address_width: self.address_width as int,
            mem: self.mem@,
        }
    }
}

impl EepromController {
    pub fn new(large: bool) -> (r: EepromController)
        ensures
            r@.wf(),
            r@.phase == EepromPhase::Idle,
            r@.mem =~= Seq::<u8>::new(
                if large {
                    EEPROM_LARGE_SIZE as nat
                } else {
                    EEPROM_SMALL_SIZE as nat
                },
                |i: int| 0xFFu8,
            ),
            r@.address_width == if large {
                14int
            } else {
                6int
            },
    {
        let size: usize = if large {
            EEPROM_LARGE_SIZE
        } else {
            EEPROM_SMALL_SIZE
        };
        let mut mem: Vec<u8> = Vec::new();
        let mut i: usize = 0;
        while i < size
            invariant
                i <= size,
                mem@ =~= Seq::<u8>::new(i as nat, |j: int| 0xFFu8),
            decreases size - i,
        {
            mem.push(0xFF);
            i = i + 1;
        }
        EepromController {
            phase: EepromPhase::Idle,
            is_write: false,
            bit_count: 0,
            bit_buffer: 0,
            block: 0,
            tx_index: 0,
            tx_data: 0,
            address_width: if large {
                14
            } else {
                6
            },
            mem,
        }
    }

    pub fn from_bytes(mem: Vec<u8>) -> (r: EepromController)
        requires
            mem.len() == EEPROM_SMALL_SIZE || mem.len() == EEPROM_LARGE_SIZE,
        ensures
            r@.wf(),
            r@.phase == EepromPhase::Idle,
            r@.mem == mem@,
    {
        let address_width: usize = if mem.len() == EEPROM_SMALL_SIZE {
            6
        } else {
            14
        };
        EepromController {
            phase: EepromPhase::Idle,
            is_write: false,
            bit_count: 0,
            bit_buffer: 0,
            block: 0,
            tx_index: 0,
            tx_data: 0,
            address_width,
            mem,
        }
    }

    /// Clocks one bit into the controller: the least significant bit of the
    /// written half-word.
    pub fn write_half(&mut self, value: u16)
        requires
            old(self)@.wf(),
        ensures
            final(self)@.wf(),
            final(self)@ =~= old(self)@.write_bit_step(value & 1 == 1),
    {
        let bit: bool = value & 1 == 1;
        match self.phase {
            EepromPhase::Idle => {
                if bit {
                    self.phase = EepromPhase::GotStartBit;
                }
            },
            EepromPhase::GotStartBit => {
                self.phase = EepromPhase::RxAddress;
                self.is_write = bit;
                self.bit_count = 0;
                self.bit_buffer = 0;
            },
            EepromPhase::RxAddress => {
                let buf: u64 = (self.bit_buffer << 1) | (if bit {
                    1
                } else {
                    0
                });
                if self.bit_count + 1 == self.address_width {
                    let blocks: usize = self.mem.len() / 8;
                    self.block = (buf % (blocks as u64)) as usize;
                    self.bit_count = 0;
                    self.bit_buffer = 0;
                    if self.is_write {
                        self.phase = EepromPhase::RxData;
                    } else {
                        self.phase = EepromPhase::AwaitReadStop;
                    }
                } else {
                    self.bit_count = self.bit_count + 1;
                    self.bit_buffer = buf;
                }
            },
            EepromPhase::RxData => {
                let buf: u64 = (self.bit_buffer << 1) | (if bit {
                    1
                } else {
                    0
                });
                if self.bit_count + 1 == 64 {
                    self.commit(buf);
                    self.phase = EepromPhase::Idle;
                    self.bit_count = 0;
                    self.bit_buffer = 0;
                } else {
                    self.bit_count = self.bit_count + 1;
                    self.bit_buffer = buf;
                }
            },
            EepromPhase::AwaitReadStop => {
                self.phase = EepromPhase::TxData;
                self.tx_index = 0;
                self.tx_data = self.load_block();
            },
            EepromPhase::TxData => {
                self.tx_index = 0;
                if bit {
                    self.phase = EepromPhase::GotStartBit;
                } else {
                    self.phase = EepromPhase::Idle;
                }
            },
        }
    }

    /// Clocks one bit out of the controller, in the least significant bit
    /// of the returned half-word.
    pub fn read_half(&mut self) -> (r: u16)
        requires
            old(self)@.wf(),
        ensures
            final(self)@.wf(),
            r == old(self)@.read_bit_of(),
            final(self)@ =~= old(self)@.read_bit_step(),
    {
        match self.phase {
            EepromPhase::TxData => {
                let r: u16 = if self.tx_index < 4 {
                    0
                } else {
                    let sh: usize = 67 - self.tx_index;
                    proof {
                        let d = self.tx_data;
                        let s = sh as u64;
                        assert(s < 64 ==> (d >> s) & 1 < 2) by (bit_vector);
                    }
                    ((self.tx_data >> (sh as u64)) & 1) as u16
                };
                if self.tx_index + 1 == 68 {
                    self.phase = EepromPhase::Idle;
                    self.tx_index = 0;
                } else {
                    self.tx_index = self.tx_index + 1;
                }
                r
            },
            _ => 1,
        }
    }

    /// Stores the 64 collected payload bits to the latched block, most
    /// significant byte first.
    fn commit(&mut self, buf: u64)
        requires
            old(self)@.wf(),
        ensures
            final(self)@ =~= (EepromView {
                mem: spec_commit_mem(old(self)@.mem, old(self)@.block, buf),
                ..old(self)@
            }),
            final(self)@.wf(),
    {
        let base: usize = self.block * 8;
        self.mem.set(base, #[verifier::truncate] ((buf >> 56u64) as u8));
        self.mem.set(base + 1, #[verifier::truncate] ((buf >> 48u64) as u8));
        self.mem.set(base + 2, #[verifier::truncate] ((buf >> 40u64) as u8));
        self.mem.set(base + 3, #[verifier::truncate] ((buf >> 32u64) as u8));
        self.mem.set(base + 4, #[verifier::truncate] ((buf >> 24u64) as u8));
        self.mem.set(base + 5, #[verifier::truncate] ((buf >> 16u64) as u8));
        self.mem.set(base + 6, #[verifier::truncate] ((buf >> 8u64) as u8));
        self.mem.set(base + 7, #[verifier::truncate] (buf as u8));
    }

    /// Packs the latched block into the 64-bit shift register, most
    /// significant byte first.
    fn load_block(&self) -> (r: u64)
        requires
            self@.wf(),
        ensures
            r == spec_block_word(self@.mem, self@.block),
    {
        let base: usize = self.block * 8;
        ((self.mem[base] as u64) << 56u64) | ((self.mem[base + 1] as u64) << 48u64) | ((self.mem[base
            + 2] as u64) << 40u64) | ((self.mem[base + 3] as u64) << 32u64) | ((self.mem[base
            + 4] as u64) << 24u64) | ((self.mem[base + 5] as u64) << 16u64) | ((self.mem[base
            + 6] as u64) << 8u64) | (self.mem[base + 7] as u64)
    }
}

} // verus!
